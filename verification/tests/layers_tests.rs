use layer_net::layers::affine_layer::Affine;
use layer_net::layers::batch_normalisation_layer::BatchNormalisationLayer;
use layer_net::layers::relu_layer::Relu;
use layer_net::layers::sigmoid_layer::Sigmoid;
use layer_net::layers::softmax_with_loss_layer::SoftmaxWithLoss;
use layer_net::layers::{Layer, LayerError};
use layer_net::byte_matrix::ByteMatrix;
use layer_net::pipeline::{backward_all, forward_all};
use layer_net::shape::Shape;

fn shape(rows: usize, cols: usize) -> Shape {
    Shape { rows, cols }
}

#[test]
fn affine_layer_test_affine() {
    let x = shape(20, 50);
    let w = shape(50, 10);
    let b: usize = 10;
    let mut affine = Affine::new(w, b);
    assert_eq!(affine.forwards(x), Ok(shape(20, 10)));
    let dy = shape(20, 10);
    assert_eq!(affine.backwards(dy), Ok(shape(20, 50)));
    assert_eq!(affine.dw, shape(50, 10));
    assert_eq!(affine.db, 10);
}

#[test]
fn affine_refuses_a_batch_that_does_not_fit() {
    let mut affine = Affine::new(shape(50, 10), 10);
    assert_eq!(affine.forwards(shape(20, 49)), Err(LayerError::ShapeMismatch));
    assert_eq!(affine.x, None);
    let mut odd_bias = Affine::new(shape(50, 10), 9);
    assert_eq!(odd_bias.forwards(shape(20, 50)), Err(LayerError::ShapeMismatch));
}

#[test]
fn affine_backward_needs_a_forward() {
    let mut affine = Affine::new(shape(50, 10), 10);
    assert_eq!(
        affine.backwards(shape(20, 10)),
        Err(LayerError::BackwardBeforeForward)
    );
    assert_eq!(affine.forwards(shape(20, 50)), Ok(shape(20, 10)));
    assert_eq!(affine.backwards(shape(20, 11)), Err(LayerError::ShapeMismatch));
    assert_eq!(affine.backwards(shape(19, 10)), Err(LayerError::ShapeMismatch));
    assert_eq!(affine.dw, shape(0, 0));
    assert_eq!(affine.db, 0);
}

#[test]
fn relu_keeps_the_shape() {
    let mut relu_layer = Relu::new();
    assert_eq!(relu_layer.mask, None);
    assert_eq!(
        relu_layer.backwards(shape(2, 2)),
        Err(LayerError::BackwardBeforeForward)
    );
    assert_eq!(relu_layer.forwards(shape(2, 2)), Ok(shape(2, 2)));
    assert_eq!(relu_layer.mask, Some(shape(2, 2)));
    assert_eq!(relu_layer.backwards(shape(2, 2)), Ok(shape(2, 2)));
    assert_eq!(relu_layer.backwards(shape(2, 3)), Err(LayerError::ShapeMismatch));
}

#[test]
fn sigmoid_keeps_the_shape() {
    let mut sigmoid_layer = Sigmoid::new();
    assert_eq!(
        sigmoid_layer.backwards(shape(2, 2)),
        Err(LayerError::BackwardBeforeForward)
    );
    assert_eq!(sigmoid_layer.forwards(shape(2, 2), false), Ok(shape(2, 2)));
    assert_eq!(sigmoid_layer.out, Some(shape(2, 2)));
    assert_eq!(sigmoid_layer.backwards(shape(2, 2)), Ok(shape(2, 2)));
    assert_eq!(sigmoid_layer.backwards(shape(3, 2)), Err(LayerError::ShapeMismatch));
}

#[test]
fn batch_normalisation_creates_its_statistics_once() {
    let mut layer = BatchNormalisationLayer::new(5, 5);
    assert_eq!(layer.running_mean, None);
    assert_eq!(layer.running_var, None);
    assert_eq!(layer.forwards(shape(3, 5), false), Ok(shape(3, 5)));
    assert_eq!(layer.running_mean, Some(5));
    assert_eq!(layer.running_var, Some(5));
    assert_eq!(layer.xc, None);
    assert_eq!(layer.batch_size, 0);
    assert_eq!(
        layer.backwards(shape(3, 5)),
        Err(LayerError::BackwardBeforeForward)
    );
    assert_eq!(layer.forwards(shape(8, 5), true), Ok(shape(8, 5)));
    assert_eq!(layer.running_mean, Some(5));
    assert_eq!(layer.xc, Some(shape(8, 5)));
    assert_eq!(layer.xn, Some(shape(8, 5)));
    assert_eq!(layer.std, Some(5));
    assert_eq!(layer.batch_size, 8);
}

#[test]
fn batch_normalisation_in_inference_leaves_the_caches() {
    let mut layer = BatchNormalisationLayer::new(4, 4);
    assert_eq!(layer.forwards(shape(6, 4), true), Ok(shape(6, 4)));
    assert_eq!(layer.forwards(shape(2, 4), false), Ok(shape(2, 4)));
    assert_eq!(layer.xc, Some(shape(6, 4)));
    assert_eq!(layer.batch_size, 6);
    assert_eq!(layer.backwards(shape(6, 4)), Ok(shape(6, 4)));
    assert_eq!(layer.dgamma, 4);
    assert_eq!(layer.dbeta, 4);
    assert_eq!(layer.backwards(shape(2, 4)), Err(LayerError::ShapeMismatch));
}

#[test]
fn batch_normalisation_refuses_another_width() {
    let mut layer = BatchNormalisationLayer::new(4, 4);
    assert_eq!(layer.forwards(shape(6, 5), true), Err(LayerError::ShapeMismatch));
    assert_eq!(layer.running_mean, None);
    let mut odd = BatchNormalisationLayer::new(4, 3);
    assert_eq!(odd.forwards(shape(6, 4), true), Err(LayerError::ShapeMismatch));
}

#[test]
fn test_softmax_with_loss() {
    let x = shape(3, 10);
    let t = ByteMatrix::from_rows(
        3,
        10,
        &vec![
            0, 0, 0, 0, 0, 0, 0, 1, 0, 0, 0, 0, 0, 0, 1, 0, 0, 0, 0, 0, 0, 0, 0, 0, 0, 0, 0, 0, 0,
            1,
        ],
    )
    .unwrap();
    let mut net = SoftmaxWithLoss::new();
    assert_eq!(net.forwards(x, &t), Ok(()));
    assert_eq!(net.backwards(), Ok(shape(3, 10)));
}

#[test]
fn softmax_with_loss_wants_one_target_per_score() {
    let t = ByteMatrix::zeros(3, 10).unwrap();
    let mut net = SoftmaxWithLoss::new();
    assert_eq!(net.backwards(), Err(LayerError::BackwardBeforeForward));
    assert_eq!(net.forwards(shape(3, 9), &t), Err(LayerError::ShapeMismatch));
    assert_eq!(net.forwards(shape(2, 10), &t), Err(LayerError::ShapeMismatch));
    assert_eq!(net.y, None);
    assert_eq!(net.forwards(shape(3, 10), &t), Ok(()));
    assert_eq!(net.y, Some(shape(3, 10)));
    assert_eq!(net.t, Some(shape(3, 10)));
}

#[test]
fn a_layer_of_any_kind_passes_forward_and_backward() {
    let mut layers: Vec<Layer> = vec![
        Layer::Affine(Affine::new(shape(4, 3), 3)),
        Layer::BatchNormalisation(BatchNormalisationLayer::new(3, 3)),
        Layer::Relu(Relu::new()),
        Layer::Sigmoid(Sigmoid::new()),
    ];
    let mut x = shape(7, 4);
    for layer in layers.iter_mut() {
        x = layer.forwards(x, true).unwrap();
    }
    assert_eq!(x, shape(7, 3));
    let mut dout = x;
    for layer in layers.iter_mut().rev() {
        dout = layer.backwards(dout).unwrap();
    }
    assert_eq!(dout, shape(7, 4));
}

#[test]
fn forward_all_stops_at_the_layer_that_refuses() {
    let mut layers: Vec<Layer> = vec![
        Layer::Affine(Affine::new(shape(4, 3), 3)),
        Layer::Relu(Relu::new()),
        Layer::Affine(Affine::new(shape(5, 2), 2)),
        Layer::Sigmoid(Sigmoid::new()),
    ];
    assert_eq!(
        forward_all(&mut layers, shape(7, 4), true),
        Err(LayerError::ShapeMismatch)
    );
    match layers[0] {
        Layer::Affine(a) => assert_eq!(a.x, Some(shape(7, 4))),
        _ => panic!("the first layer is affine"),
    }
    match layers[1] {
        Layer::Relu(r) => assert_eq!(r.mask, Some(shape(7, 3))),
        _ => panic!("the second layer is a rectifier"),
    }
    match layers[2] {
        Layer::Affine(a) => assert_eq!(a.x, None),
        _ => panic!("the third layer is affine"),
    }
    match layers[3] {
        Layer::Sigmoid(s) => assert_eq!(s.out, None),
        _ => panic!("the fourth layer is a sigmoid"),
    }
}

#[test]
fn backward_all_retraces_forward_all() {
    let mut layers: Vec<Layer> = vec![
        Layer::Affine(Affine::new(shape(6, 5), 5)),
        Layer::BatchNormalisation(BatchNormalisationLayer::new(5, 5)),
        Layer::Relu(Relu::new()),
        Layer::Affine(Affine::new(shape(5, 2), 2)),
    ];
    let out = forward_all(&mut layers, shape(9, 6), true).unwrap();
    assert_eq!(out, shape(9, 2));
    assert_eq!(backward_all(&mut layers, out), Ok(shape(9, 6)));
    match layers[0] {
        Layer::Affine(a) => {
            assert_eq!(a.dw, shape(6, 5));
            assert_eq!(a.db, 5);
        }
        _ => panic!("the first layer is affine"),
    }
    match layers[1] {
        Layer::BatchNormalisation(b) => {
            assert_eq!(b.dgamma, 5);
            assert_eq!(b.dbeta, 5);
        }
        _ => panic!("the second layer is a normalisation"),
    }
    match layers[3] {
        Layer::Affine(a) => {
            assert_eq!(a.dw, shape(5, 2));
            assert_eq!(a.db, 2);
        }
        _ => panic!("the last layer is affine"),
    }
}

#[test]
fn backward_all_names_the_missing_forward() {
    let mut layers: Vec<Layer> = vec![
        Layer::Affine(Affine::new(shape(6, 5), 5)),
        Layer::Relu(Relu::new()),
    ];
    assert_eq!(
        backward_all(&mut layers, shape(9, 5)),
        Err(LayerError::BackwardBeforeForward)
    );
    let out = forward_all(&mut layers, shape(9, 6), false).unwrap();
    assert_eq!(out, shape(9, 5));
    assert_eq!(
        backward_all(&mut layers, shape(8, 5)),
        Err(LayerError::ShapeMismatch)
    );
    let mut none: Vec<Layer> = Vec::new();
    assert_eq!(forward_all(&mut none, shape(1, 2), true), Ok(shape(1, 2)));
    assert_eq!(backward_all(&mut none, shape(1, 2)), Ok(shape(1, 2)));
}
