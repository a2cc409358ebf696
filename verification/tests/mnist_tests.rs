use layer_net::mnist::{load, load_image, load_label, read_exact_bytes, DatasetType, Label};

#[test]
fn file_names_are_those_of_the_dataset() {
    assert_eq!(DatasetType::TrainImg.file_name(), "train-images-idx3-ubyte");
    assert_eq!(DatasetType::TrainLabel.file_name(), "train-labels-idx1-ubyte");
    assert_eq!(DatasetType::TestImg.file_name(), "t10k-images-idx3-ubyte");
    assert_eq!(DatasetType::TestLabel.file_name(), "t10k-labels-idx1-ubyte");
}

#[test]
fn values_lists_the_four_files_in_order() {
    assert_eq!(
        DatasetType::values(),
        vec![
            DatasetType::TrainImg,
            DatasetType::TrainLabel,
            DatasetType::TestImg,
            DatasetType::TestLabel
        ]
    );
}

#[test]
fn load_skips_the_header() {
    let file: Vec<u8> = vec![1, 2, 3, 4, 5];
    assert_eq!(load(&file, 0), vec![1, 2, 3, 4, 5]);
    assert_eq!(load(&file, 2), vec![3, 4, 5]);
    assert_eq!(load(&file, 5), Vec::<u8>::new());
    assert_eq!(load(&file, 6), Vec::<u8>::new());
}

#[test]
fn read_exact_bytes_reads_or_runs_out() {
    let data: Vec<u8> = vec![10, 11, 12, 13, 14];
    let mut pos: usize = 0;
    assert_eq!(read_exact_bytes(&data, &mut pos, 2), Ok(vec![10, 11]));
    assert_eq!(pos, 2);
    assert_eq!(read_exact_bytes(&data, &mut pos, 3), Ok(vec![12, 13, 14]));
    assert_eq!(pos, 5);
    assert_eq!(read_exact_bytes(&data, &mut pos, 0), Ok(Vec::new()));
    assert_eq!(read_exact_bytes(&data, &mut pos, 1), Err(()));
    assert_eq!(pos, 5);
    let mut early: usize = 3;
    assert_eq!(read_exact_bytes(&data, &mut early, 3), Err(()));
    assert_eq!(early, 5);
}

#[test]
fn load_label_skips_the_header() {
    let file: Vec<u8> = vec![0, 0, 8, 1, 0, 0, 0, 3, 5, 0, 4];
    assert_eq!(load_label(&file).label, vec![5, 0, 4]);
    let short: Vec<u8> = vec![0, 0, 8];
    assert_eq!(load_label(&short).label, Vec::<u8>::new());
    let only_header: Vec<u8> = vec![0; 8];
    assert_eq!(load_label(&only_header).label, Vec::<u8>::new());
}

#[test]
fn label_from_and_as_ref_keep_the_bytes() {
    let label = Label::from(vec![2, 8, 2]);
    assert_eq!(label.as_ref(), &vec![2u8, 8, 2]);
    assert_eq!(label.label, vec![2, 8, 2]);
}

#[test]
fn test_as_one_hot() {
    let label = Label::from(vec![2, 8, 2]);
    let one_hot = label.as_one_hot();
    assert_eq!(one_hot.nrows(), 3);
    assert_eq!(one_hot.ncols(), 10);
    for i in 0..3 {
        for j in 0..10 {
            let want: u8 = if j == label.label[i] as usize { 1 } else { 0 };
            assert_eq!(one_hot.get(i, j), Some(want));
        }
    }
    assert_eq!(one_hot.max_index_by_column(), vec![(0, 2), (1, 8), (2, 2)]);
}

#[test]
fn as_one_hot_of_no_label_has_no_row() {
    let one_hot = Label::from(Vec::new()).as_one_hot();
    assert_eq!(one_hot.nrows(), 0);
    assert_eq!(one_hot.ncols(), 10);
}

fn image_file(images: usize, extra: usize) -> Vec<u8> {
    let mut file: Vec<u8> = vec![0xAA; 16];
    for f in 0..(784 * images + extra) {
        file.push((f % 251) as u8);
    }
    file
}

#[test]
fn load_image_cuts_the_body_into_images() {
    let file = image_file(2, 100);
    let images = load_image(&file);
    assert_eq!(images.image_vec.len(), 2);
    for k in 0..2usize {
        let image = &images.as_ref()[k];
        assert_eq!(image.nrows(), 28);
        assert_eq!(image.ncols(), 28);
        for r in 0..28usize {
            for c in 0..28usize {
                let f = 784 * k + 28 * c + r;
                assert_eq!(image.get(r, c), Some((f % 251) as u8));
            }
        }
    }
}

#[test]
fn load_image_of_a_short_file_is_empty() {
    assert_eq!(load_image(&vec![1, 2, 3]).image_vec.len(), 0);
    assert_eq!(load_image(&image_file(0, 783)).image_vec.len(), 0);
    assert_eq!(load_image(&image_file(1, 0)).image_vec.len(), 1);
}

#[test]
fn flatten_fills_column_by_column() {
    let file = image_file(3, 0);
    let images = load_image(&file);
    let flat = images.flatten();
    assert_eq!(flat.nrows(), 3);
    assert_eq!(flat.ncols(), 784);
    for i in 0..3usize {
        for j in 0..784usize {
            let f = j * 3 + i;
            assert_eq!(flat.get(i, j), Some((f % 251) as u8));
        }
    }
}

#[test]
fn flatten_of_no_image_has_no_row() {
    let flat = load_image(&Vec::new()).flatten();
    assert_eq!(flat.nrows(), 0);
    assert_eq!(flat.ncols(), 784);
}

fn gzip(bytes: &[u8]) -> Vec<u8> {
    let mut encoder =
        flate2::write::GzEncoder::new(Vec::new(), flate2::Compression::default());
    std::io::Write::write_all(&mut encoder, bytes).unwrap();
    encoder.finish().unwrap()
}

#[test]
fn a_gzip_file_is_unpacked_under_its_stem() {
    let packed = gzip(b"0123456789 labels");
    assert_ne!(packed, b"0123456789 labels".to_vec());
    assert_eq!(
        layer_net::mnist::decode_gzip_file("train-labels-idx1-ubyte.gz", &packed),
        layer_net::mnist::Decoded::File(
            "train-labels-idx1-ubyte".to_string(),
            b"0123456789 labels".to_vec()
        )
    );
    assert_eq!(
        layer_net::mnist::decode_gzip_file("archive.tar.gz", &gzip(b"")),
        layer_net::mnist::Decoded::File("archive.tar".to_string(), Vec::new())
    );
}

#[test]
fn files_without_extension_are_left_alone() {
    let packed = gzip(b"pixels");
    assert_eq!(
        layer_net::mnist::decode_gzip_file("train-images-idx3-ubyte", &packed),
        layer_net::mnist::Decoded::Skipped
    );
    assert_eq!(
        layer_net::mnist::decode_gzip_file(".DS_Store", &packed),
        layer_net::mnist::Decoded::Skipped
    );
    assert_eq!(
        layer_net::mnist::decode_gzip_file(".hidden", &packed),
        layer_net::mnist::Decoded::Skipped
    );
    assert_eq!(layer_net::mnist::target_name("t10k-labels-idx1-ubyte"), None);
    assert_eq!(layer_net::mnist::target_name(".DS_Store"), None);
    assert_eq!(
        layer_net::mnist::target_name("t10k-labels-idx1-ubyte.gz"),
        Some("t10k-labels-idx1-ubyte".to_string())
    );
}

#[test]
fn a_file_that_is_no_gzip_file_is_corrupt() {
    assert_eq!(
        layer_net::mnist::decode_gzip_file("labels.gz", &b"plain text".to_vec()),
        layer_net::mnist::Decoded::Corrupt
    );
    let mut cut = gzip(b"some longer content that will be cut short");
    cut.truncate(cut.len() / 2);
    assert_eq!(
        layer_net::mnist::decode_gzip_file("labels.gz", &cut),
        layer_net::mnist::Decoded::Corrupt
    );
}

#[test]
fn decoded_name_decides_on_what_it_is_given() {
    let gz = Some("gz".to_string());
    let stem = Some("labels".to_string());
    assert_eq!(
        layer_net::mnist::decoded_name("labels.gz", gz.clone(), stem.clone()),
        stem
    );
    assert_eq!(
        layer_net::mnist::decoded_name("labels.gz", None, stem.clone()),
        None
    );
    assert_eq!(
        layer_net::mnist::decoded_name("labels.gz", gz.clone(), None),
        None
    );
    assert_eq!(
        layer_net::mnist::decoded_name(".DS_Store", gz, stem),
        None
    );
}
