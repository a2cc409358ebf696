//! The handwritten-digit dataset: the names of its files, and what their
//! bytes hold.

use vstd::prelude::*;
use vstd::std_specs::convert::FromSpecImpl;
use crate::byte_matrix::{first_max, lemma_one_hot_first_max, ByteMatrix};

verus! {

/// The four files of the dataset.
#[derive(Clone, Copy, Debug, PartialEq, Eq, Structural)]
pub enum DatasetType {
    TrainImg,
    TrainLabel,
    TestImg,
    TestLabel,
}

/// The number of classes: the ten digits.
pub const CLASSES: usize = 10;

/// The side of an image, in pixels.
pub const SIDE: usize = 28;

/// The number of pixels of an image.
pub const PIXELS: usize = 784;

/// The number of bytes before the first label in a label file.
pub const LABEL_HEADER: usize = 8;

/// The number of bytes before the first pixel in an image file.
pub const IMAGE_HEADER: usize = 16;

impl DatasetType {
    /// The name of the file.
    pub open spec fn spec_file_name(self) -> Seq<char> {
        match self {
            DatasetType::TrainImg => "train-images-idx3-ubyte"@,
            DatasetType::TrainLabel => "train-labels-idx1-ubyte"@,
            DatasetType::TestImg => "t10k-images-idx3-ubyte"@,
            DatasetType::TestLabel => "t10k-labels-idx1-ubyte"@,
        }
    }

    /// The name of the file.
    pub fn file_name(&self) -> (name: String)
        ensures
            name@ == self.spec_file_name(),
    {
        match self {
            DatasetType::TrainImg => "train-images-idx3-ubyte",
            DatasetType::TrainLabel => "train-labels-idx1-ubyte",
            DatasetType::TestImg => "t10k-images-idx3-ubyte",
            DatasetType::TestLabel => "t10k-labels-idx1-ubyte",
        }.to_owned()
    }

    /// The four files: training images and labels, then test images and
    /// labels.
    pub fn values() -> (v: Vec<DatasetType>)
        ensures
            v@ == seq![
                DatasetType::TrainImg,
                DatasetType::TrainLabel,
                DatasetType::TestImg,
                DatasetType::TestLabel,
            ],
    {
        let mut v: Vec<DatasetType> = Vec::new();
        v.push(DatasetType::TrainImg);
        v.push(DatasetType::TrainLabel);
        v.push(DatasetType::TestImg);
        v.push(DatasetType::TestLabel);
        assert(v@ =~= seq![
            DatasetType::TrainImg,
            DatasetType::TrainLabel,
            DatasetType::TestImg,
            DatasetType::TestLabel,
        ]);
        v
    }
}

/// The labels of a set of images: the digit that each shows.
#[derive(Debug)]
pub struct Label {
    pub label: Vec<u8>,
}

/// The images of a set: each a square of pixels, one byte per pixel.
#[derive(Debug)]
pub struct ImageBase {
    pub image_vec: Vec<ByteMatrix>,
}

/// The images of a set, pixel values as stored.
pub type ImageVec = ImageBase;

/// The one-hot rows of a list of labels: row `i` holds a one in column
/// `labels[i]` and zeros elsewhere.
pub open spec fn one_hot_rows(labels: Seq<u8>, classes: nat) -> Seq<Seq<u8>> {
    Seq::new(
        labels.len(),
        |i: int|
            Seq::new(
                classes,
                |j: int|
                    if j == labels[i] {
                        1u8
                    } else {
                        0u8
                    },
            ),
    )
}

/// What is left of a file after a header of `offsets` bytes; nothing where
/// the file is shorter than the header.
pub open spec fn after_header(file: Seq<u8>, offsets: int) -> Seq<u8> {
    if offsets <= file.len() {
        file.skip(offsets)
    } else {
        Seq::empty()
    }
}

/// The number of whole images in the body of an image file.
pub open spec fn image_count(body: Seq<u8>) -> int {
    body.len() as int / 784
}

/// Image `k` of the body of an image file: pixel `(r, c)` is byte
/// `784 * k + 28 * c + r` of the body.
pub open spec fn image_of(body: Seq<u8>, k: int) -> Seq<Seq<u8>> {
    Seq::new(28, |r: int| Seq::new(28, |c: int| body[784 * k + 28 * c + r]))
}

/// The pixels of a list of images in the order in which they are stored: image
/// after image, each column after column.
pub open spec fn stored_pixels(images: Seq<ByteMatrix>) -> Seq<u8> {
    Seq::new(
        (images.len() * 784) as nat,
        |f: int| images[f / 784]@[(f % 784) % 28][(f % 784) / 28],
    )
}

impl FromSpecImpl<Vec<u8>> for Label {
    open spec fn obeys_from_spec() -> bool {
        true
    }

    open spec fn from_spec(value: Vec<u8>) -> Label {
        Label { label: value }
    }
}

impl From<Vec<u8>> for Label {
    /// The labels that the bytes are.
    fn from(value: Vec<u8>) -> (l: Label) {
        Label { label: value }
    }
}

impl Label {
    /// The labels, as bytes.
    pub fn as_ref(&self) -> (v: &Vec<u8>)
        ensures
            *v == self.label,
    {
        &self.label
    }

    /// The labels as one-hot rows over the ten digits.
    ///
    /// Every label must be a digit, and the matrix must not be larger than
    /// a vector can be.
    pub fn as_one_hot(&self) -> (a: ByteMatrix)
        requires
            forall|i: int| 0 <= i < self.label@.len() ==> #[trigger] self.label@[i] < 10,
            self.label@.len() * 10 <= isize::MAX,
        ensures
            a.spec_cols() == 10,
            a@ == one_hot_rows(self.label@, 10),
    {
        let n: usize = self.label.len();
        let mut a: ByteMatrix = match ByteMatrix::zeros(n, CLASSES) {
            Some(a) => a,
            None => {
                proof {
                    assert(false);
                }
                return ByteMatrix::empty();
            },
        };
        let mut i: usize = 0;
        while i < n
            invariant
                i <= n,
                n == self.label@.len(),
                forall|k: int| 0 <= k < self.label@.len() ==> #[trigger] self.label@[k] < 10,
                a.spec_cols() == 10,
                a@.len() == n,
                forall|k: int| 0 <= k < i ==> #[trigger] a@[k] == one_hot_rows(self.label@, 10)[k],
                forall|k: int| i <= k < n ==> #[trigger] a@[k] == Seq::new(10, |j: int| 0u8),
            decreases n - i,
        {
            let class: usize = self.label[i] as usize;
            let done: bool = a.set(i, class, 1u8);
            assert(done);
            assert(a@[i as int] =~= one_hot_rows(self.label@, 10)[i as int]);
            i += 1;
        }
        assert(a@ =~= one_hot_rows(self.label@, 10));
        a
    }
}

/// The class that a one-hot row names is its label: in the one-hot rows of a
/// list of digits, the largest entry of row `i` stands in column `labels[i]`.
pub proof fn lemma_one_hot_names_label(labels: Seq<u8>, classes: nat, i: int)
    requires
        0 <= i < labels.len(),
        labels[i] < classes,
    ensures
        first_max(one_hot_rows(labels, classes)[i]) == labels[i],
{
    lemma_one_hot_first_max(one_hot_rows(labels, classes)[i], labels[i] as int);
}

/// The images of an image file keep its bytes: stored image after image and
/// column after column, the pixels are the bytes of the file's body, as far
/// as whole images reach.
pub proof fn lemma_images_keep_bytes(body: Seq<u8>, images: Seq<ByteMatrix>)
    requires
        images.len() == image_count(body),
        forall|k: int| 0 <= k < images.len() ==> (#[trigger] images[k])@ == image_of(body, k),
    ensures
        stored_pixels(images) == body.take(784 * (images.len() as int)),
{
    let n = images.len() as int;
    assert forall|f: int| 0 <= f < 784 * n implies stored_pixels(images)[f] == body[f] by {
        let k = f / 784;
        let rest = f % 784;
        let c = rest / 28;
        let r = rest % 28;
        assert(f == 784 * k + 28 * c + r);
        assert(images[k]@ == image_of(body, k));
    }
    assert(stored_pixels(images) =~= body.take(784 * n));
}

/// Skips a header: what is left of `file` after its first `offsets` bytes;
/// nothing where the file is shorter than that.
pub fn load(file: &Vec<u8>, offsets: usize) -> (body: Vec<u8>)
    ensures
        body@ == after_header(file@, offsets as int),
{
    let mut body: Vec<u8> = Vec::new();
    let n: usize = file.len();
    if offsets > n {
        assert(body@ =~= after_header(file@, offsets as int));
        return body;
    }
    let mut i: usize = offsets;
    while i < n
        invariant
            offsets <= i <= n,
            n == file@.len(),
            body@ =~= file@.subrange(offsets as int, i as int),
        decreases n - i,
    {
        body.push(file[i]);
        i += 1;
    }
    assert(body@ =~= after_header(file@, offsets as int));
    body
}

/// Reads the next `bytes` bytes of `data` from position `pos` on, and moves
/// the position behind them. Where fewer are left, nothing is returned and
/// the position moves to the end.
pub fn read_exact_bytes(data: &Vec<u8>, pos: &mut usize, bytes: usize) -> (r: Result<Vec<u8>, ()>)
    requires
        *old(pos) <= data@.len(),
    ensures
        r is Ok <==> *old(pos) + bytes <= data@.len(),
        r matches Ok(buffer) ==> buffer@ == data@.subrange(*old(pos) as int, *old(pos) + bytes)
            && *final(pos) == *old(pos) + bytes,
        r is Err ==> *final(pos) == data@.len(),
{
    let n: usize = data.len();
    let start: usize = *pos;
    if bytes > n - start {
        *pos = n;
        return Err(());
    }
    let end: usize = start + bytes;
    let mut buffer: Vec<u8> = Vec::new();
    let mut i: usize = start;
    while i < end
        invariant
            start <= i <= end,
            end <= n,
            n == data@.len(),
            buffer@ =~= data@.subrange(start as int, i as int),
        decreases end - i,
    {
        buffer.push(data[i]);
        i += 1;
    }
    *pos = end;
    Ok(buffer)
}

/// The labels that a label file holds: its bytes after the header.
pub fn load_label(file: &Vec<u8>) -> (l: Label)
    ensures
        l.label@ == after_header(file@, 8),
{
    Label { label: load(file, LABEL_HEADER) }
}

/// The images that an image file holds: after the header, every 784 bytes are
/// one image, column after column. Bytes behind the last whole image are left
/// out.
pub fn load_image(file: &Vec<u8>) -> (images: ImageVec)
    ensures
        images.wf(),
        images.image_vec@.len() == image_count(after_header(file@, 16)),
        forall|k: int|
            0 <= k < images.image_vec@.len() ==> (#[trigger] images.image_vec@[k])@ == image_of(
                after_header(file@, 16),
                k,
            ),
{
    let body: Vec<u8> = load(file, IMAGE_HEADER);
    let mut vec: Vec<ByteMatrix> = Vec::new();
    let mut pos: usize = 0;
    loop
        invariant_except_break
            pos <= body@.len(),
            pos == 784 * vec@.len(),
        invariant
            forall|k: int|
                0 <= k < vec@.len() ==> {
                    &&& (#[trigger] vec@[k]).spec_cols() == 28
                    &&& vec@[k]@ == image_of(body@, k)
                },
        ensures
            vec@.len() == image_count(body@),
        decreases body@.len() - pos,
    {
        let ghost k = vec@.len() as int;
        match read_exact_bytes(&body, &mut pos, PIXELS) {
            Ok(buf) => {
                match ByteMatrix::from_columns(SIDE, SIDE, buf) {
                    Some(matrix) => {
                        assert(matrix@ =~= image_of(body@, k)) by {
                            assert forall|r: int| 0 <= r < 28 implies #[trigger] matrix@[r]
                                =~= image_of(body@, k)[r] by {}
                        }
                        vec.push(matrix);
                    },
                    None => {
                        proof {
                            assert(false);
                        }
                    },
                }
            },
            Err(_) => {
                break ;
            },
        }
    }
    ImageBase { image_vec: vec }
}

impl ImageBase {
    /// Every image is a square of 28 by 28 pixels.
    pub open spec fn wf(&self) -> bool {
        forall|k: int|
            0 <= k < self.image_vec@.len() ==> {
                &&& (#[trigger] self.image_vec@[k]).spec_cols() == 28
                &&& self.image_vec@[k]@.len() == 28
            }
    }

    /// The images.
    pub fn as_ref(&self) -> (v: &Vec<ByteMatrix>)
        ensures
            *v == self.image_vec,
    {
        &self.image_vec
    }

    /// All pixels in one matrix of 784 columns and as many rows as there are
    /// images, filled column by column with the pixels in the order in which
    /// they are stored.
    pub fn flatten(&self) -> (m: ByteMatrix)
        requires
            self.wf(),
            self.image_vec@.len() * 784 <= usize::MAX,
        ensures
            m.spec_cols() == 784,
            m@ == Seq::new(
                self.image_vec@.len(),
                |i: int|
                    Seq::new(
                        784,
                        |j: int| stored_pixels(self.image_vec@)[j * self.image_vec@.len() + i],
                    ),
            ),
    {
        let n: usize = self.image_vec.len();
        let ghost all = stored_pixels(self.image_vec@);
        let mut vec: Vec<u8> = Vec::new();
        let mut k: usize = 0;
        while k < n
            invariant
                k <= n,
                n == self.image_vec@.len(),
                self.wf(),
                all == stored_pixels(self.image_vec@),
                vec@ =~= all.take(784 * k),
            decreases n - k,
        {
            let image: &ByteMatrix = &self.image_vec[k];
            let mut c: usize = 0;
            while c < SIDE
                invariant
                    c <= 28,
                    k < n,
                    n == self.image_vec@.len(),
                    self.wf(),
                    *image == self.image_vec@[k as int],
                    all == stored_pixels(self.image_vec@),
                    vec@ =~= all.take(784 * k + 28 * c),
                decreases 28 - c,
            {
                let mut r: usize = 0;
                while r < SIDE
                    invariant
                        r <= 28,
                        c < 28,
                        k < n,
                        n == self.image_vec@.len(),
                        self.wf(),
                        *image == self.image_vec@[k as int],
                        all == stored_pixels(self.image_vec@),
                        vec@ =~= all.take(784 * k + 28 * c + r),
                    decreases 28 - r,
                {
                    let ghost f: int = 784 * k + 28 * c + r;
                    match image.get(r, c) {
                        Some(v) => {
                            assert(f / 784 == k && f % 784 == 28 * c + r);
                            assert(all[f] == v);
                            assert(all.take(f + 1) =~= all.take(f).push(v));
                            vec.push(v);
                        },
                        None => {
                            proof {
                                assert(false);
                            }
                        },
                    }
                    r += 1;
                }
                c += 1;
            }
            k += 1;
        }
        assert(vec@ =~= all);
        match ByteMatrix::from_columns(n, PIXELS, vec) {
            Some(m) => m,
            None => {
                proof {
                    assert(false);
                }
                ByteMatrix::empty()
            },
        }
    }
}

/// What `flate2` makes of a gzip file: the bytes that it holds, or nothing
/// where the file is not sound.
pub uninterp spec fn gunzipped(bytes: Seq<u8>) -> Option<Seq<u8>>;

/// What `std::path::Path::extension` makes of a file name.
pub uninterp spec fn path_extension(name: Seq<char>) -> Option<Seq<char>>;

/// What `std::path::Path::file_stem` makes of a file name.
pub uninterp spec fn path_file_stem(name: Seq<char>) -> Option<Seq<char>>;

/// Reading a `flate2::bufread::GzDecoder` over `bytes` to its end: the bytes
/// that the gzip file holds, or `None` where the decoder reports an error.
#[verifier::external_body]
fn gunzip(bytes: &Vec<u8>) -> (r: Option<Vec<u8>>)
    ensures
        match r {
            Some(v) => gunzipped(bytes@) == Some(v@),
            None => gunzipped(bytes@) is None,
        },
{
    let mut out: Vec<u8> = Vec::new();
    let mut decoder = flate2::bufread::GzDecoder::new(bytes.as_slice());
    match std::io::Read::read_to_end(&mut decoder, &mut out) {
        Ok(_) => Some(out),
        Err(_) => None,
    }
}

/// `std::path::Path::extension` of a file name.
#[verifier::external_body]
fn extension(name: &str) -> (r: Option<String>)
    ensures
        match r {
            Some(e) => path_extension(name@) == Some(e@),
            None => path_extension(name@) is None,
        },
{
    std::path::Path::new(name).extension().map(|e| e.to_string_lossy().into_owned())
}

/// `std::path::Path::file_stem` of a file name.
#[verifier::external_body]
fn file_stem(name: &str) -> (r: Option<String>)
    ensures
        match r {
            Some(e) => path_file_stem(name@) == Some(e@),
            None => path_file_stem(name@) is None,
        },
{
    std::path::Path::new(name).file_stem().map(|e| e.to_string_lossy().into_owned())
}

/// What decoding a file of a dataset directory comes to.
#[derive(Debug, PartialEq, Eq)]
pub enum Decoded {
    /// The file is not one to decode.
    Skipped,
    /// The file is not a sound gzip file.
    Corrupt,
    /// The name of the decoded file, and its bytes.
    File(String, Vec<u8>),
}

/// Whether a file of the given name, extension and stem is left alone: the
/// folder's own `.DS_Store`, and every file without an extension.
pub open spec fn left_alone(
    file_name: Seq<char>,
    extension: Option<Seq<char>>,
    stem: Option<Seq<char>>,
) -> bool {
    file_name == ".DS_Store"@ || extension is None || stem is None
}

/// The name under which a file is decoded, given its extension and its stem:
/// the stem; `None` where the file is left alone.
pub fn decoded_name(file_name: &str, extension: Option<String>, stem: Option<String>) -> (r:
    Option<String>)
    ensures
        r is None <==> left_alone(
            file_name@,
            match extension {
                Some(e) => Some(e@),
                None => None,
            },
            match stem {
                Some(s) => Some(s@),
                None => None,
            },
        ),
        r matches Some(n) ==> stem matches Some(s) && n@ == s@,
{
    let ds_store: String = ".DS_Store".to_owned();
    let name: String = file_name.to_owned();
    if name == ds_store || extension.is_none() {
        return None;
    }
    stem
}

/// The name under which a file of a dataset directory is decoded; `None`
/// where the file is left alone.
pub fn target_name(file_name: &str) -> (r: Option<String>)
    ensures
        r is None <==> left_alone(
            file_name@,
            path_extension(file_name@),
            path_file_stem(file_name@),
        ),
        r matches Some(n) ==> path_file_stem(file_name@) == Some(n@),
{
    decoded_name(file_name, extension(file_name), file_stem(file_name))
}

/// Decodes a file of a dataset directory: a gzip file is unpacked under the
/// name of its stem; a file that is left alone is skipped.
pub fn decode_gzip_file(file_name: &str, content: &Vec<u8>) -> (r: Decoded)
    ensures
        r is Skipped <==> left_alone(
            file_name@,
            path_extension(file_name@),
            path_file_stem(file_name@),
        ),
        r is Corrupt <==> !(r is Skipped) && gunzipped(content@) is None,
        r matches Decoded::File(name, bytes) ==> {
            &&& path_file_stem(file_name@) == Some(name@)
            &&& gunzipped(content@) == Some(bytes@)
        },
{
    match target_name(file_name) {
        None => Decoded::Skipped,
        Some(name) => match gunzip(content) {
            Some(bytes) => Decoded::File(name, bytes),
            None => Decoded::Corrupt,
        },
    }
}

} // verus!
