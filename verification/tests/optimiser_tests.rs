use layer_net::byte_matrix::ByteMatrix;
use layer_net::grads::Grads;
use layer_net::grads_extended::GradsExt;
use layer_net::layers::LayerError;
use layer_net::multi_layer_net::MultiLayer;
use layer_net::multi_layer_net_extended::MultiLayerNetExtended;
use layer_net::optimiser::ada_grad::AdaGrad;
use layer_net::optimiser::momentum::Momentum;
use layer_net::optimiser::sgd::SGD;
use layer_net::optimiser::sgd_ext::SGDExt;
use layer_net::params::{copy_lengths, copy_shapes, same_lengths, same_shapes, Params};
use layer_net::params_extended::ParamsExt;
use layer_net::shape::Shape;
use layer_net::train::{iter_per_epoch, label_batch, mini_batch, Schedule, MAX_BATCH};

fn shape(rows: usize, cols: usize) -> Shape {
    Shape { rows, cols }
}

fn trained() -> MultiLayer {
    let mut net = MultiLayer::new(12, vec![7], 3, "relu", "relu").unwrap();
    let t = ByteMatrix::zeros(4, 3).unwrap();
    net.gradient(shape(4, 12), &t).unwrap();
    net
}

#[test]
fn stores_start_empty() {
    let p = Params::new(3);
    assert_eq!(p.weight_list, vec![shape(0, 0); 3]);
    assert_eq!(p.bias_list, vec![0; 3]);
    let g = Grads::new(2);
    assert_eq!(g.d_weight_list, vec![shape(0, 0); 2]);
    assert_eq!(g.d_bias_list, vec![0; 2]);
    let pe = ParamsExt::new(2);
    assert_eq!(pe.weight_list, vec![shape(0, 0); 2]);
    assert_eq!(pe.bias_list, vec![0; 2]);
    assert_eq!(pe.gamma_list, vec![0; 2]);
    assert_eq!(pe.beta_list, vec![0; 2]);
    let ge = GradsExt::new(1);
    assert_eq!(ge.d_weight_list, vec![shape(0, 0)]);
    assert_eq!(ge.d_bias_list, vec![0]);
    assert_eq!(ge.d_gamma_list, vec![0]);
    assert_eq!(ge.d_beta_list, vec![0]);
    assert_eq!(Params::new(0).weight_list.len(), 0);
}

#[test]
fn lists_compare_and_copy_entry_by_entry() {
    let a = vec![shape(1, 2), shape(3, 4)];
    assert!(same_shapes(&a, &vec![shape(1, 2), shape(3, 4)]));
    assert!(!same_shapes(&a, &vec![shape(1, 2), shape(3, 5)]));
    assert!(!same_shapes(&a, &vec![shape(1, 2)]));
    assert!(same_lengths(&vec![1, 2, 3], &vec![1, 2, 3]));
    assert!(!same_lengths(&vec![1, 2, 3], &vec![1, 2, 4]));
    assert!(!same_lengths(&vec![1, 2, 3], &vec![1, 2]));
    assert_eq!(copy_shapes(&a), a);
    assert_eq!(copy_lengths(&vec![5, 6]), vec![5, 6]);
}

#[test]
fn sgd_wants_a_gradient_for_every_parameter() {
    let net = trained();
    let sgd = SGD::new();
    assert_eq!(sgd.update(&net.params, &net.grads), Ok(()));
    let fresh = MultiLayer::new(12, vec![7], 3, "relu", "relu").unwrap();
    assert_eq!(
        sgd.update(&fresh.params, &fresh.grads),
        Err(LayerError::ShapeMismatch)
    );
    assert_eq!(
        sgd.update(&net.params, &Grads::new(1)),
        Err(LayerError::ShapeMismatch)
    );
}

#[test]
fn sgd_ext_leaves_out_scales_without_gradient() {
    let mut net = MultiLayerNetExtended::new(12, vec![7, 5], 3, "relu", "relu").unwrap();
    let t = ByteMatrix::zeros(4, 3).unwrap();
    let optimiser = SGDExt::new();
    assert_eq!(
        optimiser.update(&net.params, &net.grads),
        Err(LayerError::ShapeMismatch)
    );
    net.gradient(shape(4, 12), &t).unwrap();
    assert_eq!(
        optimiser.update(&net.params, &net.grads),
        Ok(vec![true, true, false])
    );
    let mut odd = net.grads.clone();
    odd.d_gamma_list[0] = 6;
    assert_eq!(
        optimiser.update(&net.params, &odd),
        Err(LayerError::ShapeMismatch)
    );
    let mut none = net.grads.clone();
    none.d_gamma_list[1] = 0;
    none.d_beta_list[1] = 99;
    assert_eq!(
        optimiser.update(&net.params, &none),
        Ok(vec![true, false, false])
    );
    let mut short = net.grads.clone();
    short.d_beta_list.pop();
    assert_eq!(
        optimiser.update(&net.params, &short),
        Err(LayerError::ShapeMismatch)
    );
}

#[test]
fn momentum_makes_its_velocities_with_the_first_update() {
    let net = trained();
    let mut optimiser = Momentum::new();
    assert!(optimiser.v.is_none());
    assert_eq!(optimiser.update(&net.params, &net.grads), Ok(true));
    let v = optimiser.v.as_ref().unwrap();
    assert_eq!(v.v_weight_list, vec![shape(12, 7), shape(7, 3)]);
    assert_eq!(v.v_bias_list, vec![7, 3]);
    assert_eq!(optimiser.update(&net.params, &net.grads), Ok(false));
    assert_eq!(optimiser.update(&net.params, &net.grads), Ok(false));
}

#[test]
fn momentum_refuses_what_does_not_fit() {
    let net = trained();
    let mut optimiser = Momentum::new();
    assert_eq!(
        optimiser.update(&net.params, &Grads::new(2)),
        Err(LayerError::ShapeMismatch)
    );
    assert!(optimiser.v.is_none());
    assert_eq!(optimiser.update(&net.params, &net.grads), Ok(true));
    let mut other = MultiLayer::new(12, vec![8], 3, "relu", "relu").unwrap();
    let t = ByteMatrix::zeros(4, 3).unwrap();
    other.gradient(shape(4, 12), &t).unwrap();
    assert_eq!(
        optimiser.update(&other.params, &other.grads),
        Err(LayerError::ShapeMismatch)
    );
    assert_eq!(
        optimiser.v.as_ref().unwrap().v_weight_list,
        vec![shape(12, 7), shape(7, 3)]
    );
}

#[test]
fn ada_grad_makes_its_sums_with_the_first_update() {
    let net = trained();
    let mut optimiser = AdaGrad::new();
    assert!(optimiser.h.is_none());
    assert_eq!(optimiser.update(&net.params, &net.grads), Ok(true));
    let h = optimiser.h.as_ref().unwrap();
    assert_eq!(h.weight_list, vec![shape(12, 7), shape(7, 3)]);
    assert_eq!(h.bias_list, vec![7, 3]);
    assert_eq!(optimiser.update(&net.params, &net.grads), Ok(false));
    assert_eq!(
        optimiser.update(&net.params, &Grads::new(2)),
        Err(LayerError::ShapeMismatch)
    );
    assert_eq!(optimiser.update(&net.params, &net.grads), Ok(false));
}

#[test]
fn an_epoch_has_the_whole_batches_of_the_set() {
    assert_eq!(iter_per_epoch(60000, 100), 600);
    assert_eq!(iter_per_epoch(300, 100), 3);
    assert_eq!(iter_per_epoch(350, 100), 3);
    assert_eq!(iter_per_epoch(99, 100), 1);
    assert_eq!(iter_per_epoch(0, 100), 1);
}

#[test]
fn the_schedule_evaluates_first_and_at_the_end_of_every_epoch() {
    let mut s = Schedule::new(3, 10, 100);
    let mut evaluated: Vec<usize> = Vec::new();
    let mut i: usize = 0;
    while let Some(evaluate) = s.next() {
        if evaluate {
            evaluated.push(i);
        }
        i += 1;
    }
    assert_eq!(i, 10);
    assert_eq!(evaluated, vec![0, 2, 5, 8]);
    assert_eq!(s.iteration, 10);
    assert_eq!(s.epoch_count, 4);
    assert_eq!(s.next(), None);
    assert_eq!(s.iteration, 10);
}

#[test]
fn the_schedule_stops_after_its_epochs() {
    let mut s = Schedule::new(2, 1000, 3);
    let mut steps: Vec<bool> = Vec::new();
    while let Some(evaluate) = s.next() {
        steps.push(evaluate);
    }
    assert_eq!(steps, vec![true, true, false, true]);
    assert!(s.stopped);
    assert_eq!(s.epoch_count, 3);
    let mut at_once = Schedule::new(5, 1000, 0);
    assert_eq!(at_once.next(), Some(true));
    assert_eq!(at_once.next(), None);
    let mut nothing = Schedule::new(5, 0, 10);
    assert_eq!(nothing.next(), None);
}

#[test]
fn a_mini_batch_names_samples_once() {
    for _ in 0..20 {
        let mask = mini_batch(50, 10).unwrap();
        assert_eq!(mask.len(), 10);
        for (i, a) in mask.iter().enumerate() {
            assert!(*a < 50);
            for b in mask.iter().skip(i + 1) {
                assert_ne!(a, b);
            }
        }
    }
    let mut all = mini_batch(4, 10).unwrap();
    all.sort();
    assert_eq!(all, vec![0, 1, 2, 3]);
    assert_eq!(mini_batch(0, 10), Some(Vec::new()));
    assert_eq!(mini_batch(10, 0), Some(Vec::new()));
    assert_eq!(mini_batch(usize::MAX, MAX_BATCH + 1), None);
}

#[test]
fn a_label_batch_gathers_the_rows_of_its_samples() {
    let labels = ByteMatrix::from_rows(
        4,
        3,
        &vec![
            1, 0, 0, //
            0, 1, 0, //
            0, 0, 1, //
            0, 1, 1,
        ],
    )
    .unwrap();
    let batch = label_batch(&labels, &vec![3, 0], 3).unwrap();
    assert_eq!(batch.nrows(), 3);
    assert_eq!(batch.ncols(), 3);
    let want: [[u8; 3]; 3] = [[0, 1, 1], [1, 0, 0], [0, 0, 0]];
    for i in 0..3 {
        for j in 0..3 {
            assert_eq!(batch.get(i, j), Some(want[i][j]));
        }
    }
    assert!(label_batch(&labels, &vec![4], 3).is_none());
    assert!(label_batch(&labels, &vec![0, 1, 2], 2).is_none());
    assert!(label_batch(&labels, &Vec::new(), usize::MAX).is_none());
    let none = label_batch(&labels, &Vec::new(), 0).unwrap();
    assert_eq!(none.nrows(), 0);
    assert_eq!(none.ncols(), 3);
}
