use layer_net::accuracy::Accuracy;
use layer_net::byte_matrix::ByteMatrix;
use layer_net::config::{
    activation_kind, activation_layer, weight_init_kind, weight_scale, Activation, ConfigError,
    WeightInit, WeightScale,
};
use layer_net::layers::{Layer, LayerError};
use layer_net::multi_layer_net::MultiLayer;
use layer_net::multi_layer_net_extended::{init_weight, MultiLayerNetExtended};
use layer_net::shape::Shape;
use layer_net::two_layer_net::TwoLayerNet;
use layer_net::wiring::{all_size_list, build_layers, parameter_index};

fn shape(rows: usize, cols: usize) -> Shape {
    Shape { rows, cols }
}

#[test]
fn names_of_activations() {
    assert_eq!(activation_kind("relu"), Ok(Activation::Relu));
    assert_eq!(activation_kind("sigmoid"), Ok(Activation::Sigmoid));
    assert_eq!(activation_kind("tanh"), Err(ConfigError::UnknownActivation));
    assert_eq!(activation_kind(""), Err(ConfigError::UnknownActivation));
    assert_eq!(activation_kind("Relu"), Err(ConfigError::UnknownActivation));
}

#[test]
fn names_of_weight_schemes() {
    assert_eq!(weight_init_kind("relu"), Ok(WeightInit::He));
    assert_eq!(weight_init_kind("he"), Ok(WeightInit::He));
    assert_eq!(weight_init_kind("sigmoid"), Ok(WeightInit::Xavier));
    assert_eq!(weight_init_kind("xavier"), Ok(WeightInit::Xavier));
    assert_eq!(weight_init_kind("default"), Ok(WeightInit::Fixed));
    assert_eq!(weight_init_kind("glorot"), Err(ConfigError::UnknownWeightInit));
    assert_eq!(weight_init_kind(""), Err(ConfigError::UnknownWeightInit));
}

#[test]
fn scales_of_weight_schemes() {
    assert_eq!(
        weight_scale(WeightInit::He, 784),
        WeightScale::SqrtOver { numerator: 2, fan_in: 784 }
    );
    assert_eq!(
        weight_scale(WeightInit::Xavier, 100),
        WeightScale::SqrtOver { numerator: 1, fan_in: 100 }
    );
    assert_eq!(weight_scale(WeightInit::Fixed, 100), WeightScale::Fixed);
}

#[test]
fn activation_layer_builds_the_named_kind() {
    match activation_layer("relu") {
        Ok(Layer::Relu(r)) => assert_eq!(r.mask, None),
        _ => panic!("relu names the rectifier"),
    }
    match activation_layer("sigmoid") {
        Ok(Layer::Sigmoid(s)) => assert_eq!(s.out, None),
        _ => panic!("sigmoid names the sigmoid"),
    }
    assert!(matches!(
        activation_layer("step"),
        Err(ConfigError::UnknownActivation)
    ));
}

#[test]
fn all_size_list_runs_from_input_to_output() {
    assert_eq!(all_size_list(784, &vec![100, 50], 10), vec![784, 100, 50, 10]);
    assert_eq!(all_size_list(3, &Vec::new(), 2), vec![3, 2]);
}

#[test]
fn build_layers_interleaves_the_kinds() {
    let layers = build_layers(&vec![8, 6, 4, 2], Activation::Sigmoid, true);
    assert_eq!(layers.len(), 7);
    let widths = [(8, 6), (6, 4), (4, 2)];
    for i in 0..3 {
        match layers[3 * i] {
            Layer::Affine(a) => {
                assert_eq!(a.w, shape(widths[i].0, widths[i].1));
                assert_eq!(a.b, widths[i].1);
                assert_eq!(a.x, None);
            }
            _ => panic!("every third layer is affine"),
        }
    }
    for i in 0..2 {
        match layers[3 * i + 1] {
            Layer::BatchNormalisation(b) => {
                assert_eq!(b.gamma, widths[i].1);
                assert_eq!(b.beta, widths[i].1);
                assert_eq!(b.running_mean, None);
            }
            _ => panic!("a normalisation follows every hidden affine layer"),
        }
        assert!(matches!(layers[3 * i + 2], Layer::Sigmoid(_)));
    }
    let plain = build_layers(&vec![8, 6, 2], Activation::Relu, false);
    assert_eq!(plain.len(), 3);
    assert!(matches!(plain[0], Layer::Affine(_)));
    assert!(matches!(plain[1], Layer::Relu(_)));
    assert!(matches!(plain[2], Layer::Affine(_)));
}

#[test]
fn init_weight_shapes_every_parameter() {
    let p = init_weight(784, &vec![100, 50], 10, "he").unwrap();
    assert_eq!(p.weight_list, vec![shape(784, 100), shape(100, 50), shape(50, 10)]);
    assert_eq!(p.bias_list, vec![100, 50, 10]);
    assert_eq!(p.gamma_list, vec![100, 50, 0]);
    assert_eq!(p.beta_list, vec![100, 50, 0]);
    assert!(matches!(
        init_weight(784, &vec![100], 10, "uniform"),
        Err(ConfigError::UnknownWeightInit)
    ));
}

#[test]
fn new_refuses_unknown_names() {
    assert!(matches!(
        MultiLayerNetExtended::new(784, vec![100], 10, "relu", "tanh"),
        Err(ConfigError::UnknownActivation)
    ));
    assert!(matches!(
        MultiLayerNetExtended::new(784, vec![100], 10, "normal", "relu"),
        Err(ConfigError::UnknownWeightInit)
    ));
    assert!(matches!(
        MultiLayerNetExtended::new(784, vec![100], 10, "normal", "tanh"),
        Err(ConfigError::UnknownWeightInit)
    ));
    assert!(matches!(
        MultiLayerNetExtended::new(784, Vec::new(), 10, "relu", "tanh"),
        Err(ConfigError::UnknownActivation)
    ));
    assert!(matches!(
        MultiLayer::new(784, vec![100], 10, "relu", "softplus"),
        Err(ConfigError::UnknownActivation)
    ));
    assert!(matches!(
        MultiLayer::new(784, vec![100], 10, "lecun", "relu"),
        Err(ConfigError::UnknownWeightInit)
    ));
}

#[test]
fn new_wires_one_affine_layer_more_than_hidden_sizes() {
    let net = MultiLayerNetExtended::new(784, vec![100; 6], 10, "relu", "relu").unwrap();
    assert_eq!(net.input_size, 784);
    assert_eq!(net.output_size, 10);
    assert_eq!(net.hidden_layer_num, 6);
    assert_eq!(net.hidden_size_list, vec![100; 6]);
    assert_eq!(net.weight_init, WeightInit::He);
    assert_eq!(net.activation, Activation::Relu);
    assert_eq!(net.layers.len(), 19);
    assert_eq!(net.params.weight_list.len(), 7);
    assert_eq!(net.params.bias_list.len(), 7);
    let affine = net
        .layers
        .iter()
        .filter(|l| matches!(l, Layer::Affine(_)))
        .count();
    assert_eq!(affine, 7);
    assert_eq!(net.params.weight_list[0], shape(784, 100));
    assert_eq!(net.params.weight_list[3], shape(100, 100));
    assert_eq!(net.params.weight_list[6], shape(100, 10));
    for i in 0..6 {
        assert_eq!(
            net.params.weight_list[i].cols,
            net.params.weight_list[i + 1].rows
        );
    }
    assert_eq!(net.grads.d_weight_list, vec![shape(0, 0); 7]);
    assert_eq!(net.grads.d_bias_list, vec![0; 7]);
    assert_eq!(net.grads.d_gamma_list, vec![0; 7]);
    assert_eq!(net.grads.d_beta_list, vec![0; 7]);
    assert_eq!(net.last_layer.y, None);
}

#[test]
fn predict_gives_one_row_per_sample_and_one_column_per_output() {
    let mut net = MultiLayerNetExtended::new(784, vec![100, 50], 10, "relu", "relu").unwrap();
    assert_eq!(net.predict(shape(32, 784), false), Ok(shape(32, 10)));
    assert_eq!(net.predict(shape(0, 784), true), Ok(shape(0, 10)));
    let mut plain = MultiLayer::new(20, vec![8], 4, "sigmoid", "sigmoid").unwrap();
    assert_eq!(plain.predict(shape(5, 20)), Ok(shape(5, 4)));
    let mut two = TwoLayerNet::new(784, 50, 10);
    assert_eq!(two.predict(shape(4, 784)), Ok(shape(4, 10)));
}

#[test]
fn predict_refuses_another_width_and_changes_nothing() {
    let mut net = MultiLayerNetExtended::new(784, vec![100], 10, "relu", "relu").unwrap();
    assert_eq!(net.predict(shape(32, 783), true), Err(LayerError::ShapeMismatch));
    match net.layers[0] {
        Layer::Affine(a) => assert_eq!(a.x, None),
        _ => panic!("the first layer is affine"),
    }
    let mut plain = MultiLayer::new(20, vec![8], 4, "relu", "relu").unwrap();
    assert_eq!(plain.predict(shape(5, 21)), Err(LayerError::ShapeMismatch));
    let mut two = TwoLayerNet::new(784, 50, 10);
    assert_eq!(two.predict(shape(4, 10)), Err(LayerError::ShapeMismatch));
    assert_eq!(two.layers.affine1.x, None);
}

#[test]
fn predict_in_inference_leaves_the_normalisation_caches() {
    let mut net = MultiLayerNetExtended::new(6, vec![4], 2, "relu", "relu").unwrap();
    assert_eq!(net.predict(shape(3, 6), false), Ok(shape(3, 2)));
    match net.layers[1] {
        Layer::BatchNormalisation(b) => {
            assert_eq!(b.running_mean, Some(4));
            assert_eq!(b.xc, None);
        }
        _ => panic!("the second layer is a normalisation"),
    }
    assert_eq!(net.predict(shape(5, 6), true), Ok(shape(5, 2)));
    match net.layers[1] {
        Layer::BatchNormalisation(b) => {
            assert_eq!(b.xc, Some(shape(5, 4)));
            assert_eq!(b.batch_size, 5);
        }
        _ => panic!("the second layer is a normalisation"),
    }
}

#[test]
fn loss_wants_targets_that_fit() {
    let mut net = MultiLayerNetExtended::new(6, vec![4], 3, "he", "sigmoid").unwrap();
    let t = ByteMatrix::zeros(5, 3).unwrap();
    assert_eq!(net.loss(shape(5, 6), &t, true), Ok(()));
    assert_eq!(net.last_layer.y, Some(shape(5, 3)));
    assert_eq!(net.loss(shape(4, 6), &t, true), Err(LayerError::ShapeMismatch));
    assert_eq!(net.loss(shape(5, 7), &t, true), Err(LayerError::ShapeMismatch));
    let narrow = ByteMatrix::zeros(5, 2).unwrap();
    assert_eq!(net.loss(shape(5, 6), &narrow, false), Err(LayerError::ShapeMismatch));
}

#[test]
fn gradient_gives_every_parameter_its_gradient() {
    let mut net = MultiLayerNetExtended::new(784, vec![100, 50], 10, "relu", "relu").unwrap();
    let t = ByteMatrix::zeros(16, 10).unwrap();
    assert_eq!(net.gradient(shape(16, 784), &t), Ok(()));
    assert_eq!(net.grads.d_weight_list, net.params.weight_list);
    assert_eq!(net.grads.d_bias_list, net.params.bias_list);
    assert_eq!(net.grads.d_gamma_list, net.params.gamma_list);
    assert_eq!(net.grads.d_beta_list, net.params.beta_list);
    assert_eq!(
        net.grads.d_weight_list,
        vec![shape(784, 100), shape(100, 50), shape(50, 10)]
    );
    assert_eq!(net.grads.d_gamma_list, vec![100, 50, 0]);
    match net.layers[0] {
        Layer::Affine(a) => {
            assert_eq!(a.x, Some(shape(16, 784)));
            assert_eq!(a.dw, shape(784, 100));
        }
        _ => panic!("the first layer is affine"),
    }
}

#[test]
fn gradient_of_the_plain_network() {
    let mut net = MultiLayer::new(12, vec![7, 5], 3, "xavier", "sigmoid").unwrap();
    assert_eq!(net.layers.len(), 5);
    let t = ByteMatrix::zeros(4, 3).unwrap();
    assert_eq!(net.grads.d_weight_list, vec![shape(0, 0); 3]);
    assert_eq!(net.gradient(shape(4, 12), &t), Ok(()));
    assert_eq!(net.grads.d_weight_list, vec![shape(12, 7), shape(7, 5), shape(5, 3)]);
    assert_eq!(net.grads.d_bias_list, vec![7, 5, 3]);
    assert_eq!(net.gradient(shape(4, 11), &t), Err(LayerError::ShapeMismatch));
}

#[test]
fn gradient_refuses_what_loss_refuses() {
    let mut net = MultiLayerNetExtended::new(6, vec![4], 3, "relu", "relu").unwrap();
    let t = ByteMatrix::zeros(5, 3).unwrap();
    assert_eq!(net.gradient(shape(5, 5), &t), Err(LayerError::ShapeMismatch));
    assert_eq!(net.gradient(shape(6, 6), &t), Err(LayerError::ShapeMismatch));
    assert_eq!(net.grads.d_weight_list, vec![shape(0, 0); 2]);
}

#[test]
fn a_network_without_hidden_layers_is_one_affine_layer() {
    let mut net = MultiLayerNetExtended::new(6, Vec::new(), 3, "relu", "relu").unwrap();
    assert_eq!(net.layers.len(), 1);
    assert_eq!(net.params.weight_list, vec![shape(6, 3)]);
    assert_eq!(net.params.gamma_list, vec![0]);
    let t = ByteMatrix::zeros(2, 3).unwrap();
    assert_eq!(net.gradient(shape(2, 6), &t), Ok(()));
    assert_eq!(net.grads.d_weight_list, vec![shape(6, 3)]);
    assert_eq!(net.grads.d_bias_list, vec![3]);
    assert_eq!(net.grads.d_gamma_list, vec![0]);
}

#[test]
fn two_layer_net_takes_both_gradients() {
    let mut net = TwoLayerNet::new(784, 50, 10);
    assert_eq!(net.params.w1, shape(784, 50));
    assert_eq!(net.params.b1, 50);
    assert_eq!(net.params.w2, shape(50, 10));
    assert_eq!(net.params.b2, 10);
    let t = ByteMatrix::zeros(3, 10).unwrap();
    assert_eq!(net.loss(shape(3, 784), &t), Ok(()));
    assert_eq!(net.gradient(shape(3, 784), &t), Ok(()));
    assert_eq!(net.grads.d_w1, shape(784, 50));
    assert_eq!(net.grads.d_b1, 50);
    assert_eq!(net.grads.d_w2, shape(50, 10));
    assert_eq!(net.grads.d_b2, 10);
    assert_eq!(net.layers.affine1.dw, shape(784, 50));
    assert_eq!(net.layers.affine2.dw, shape(50, 10));
    assert_eq!(net.numerical_gradient(shape(3, 784), &t), Ok(()));
    assert_eq!(net.grads.d_w1, shape(784, 50));
    assert_eq!(
        net.numerical_gradient(shape(3, 783), &t),
        Err(LayerError::ShapeMismatch)
    );
    assert_eq!(net.gradient(shape(4, 784), &t), Err(LayerError::ShapeMismatch));
}

#[test]
fn accuracy_of_a_network_counts_the_matches() {
    let mut net = MultiLayerNetExtended::new(6, vec![4], 3, "relu", "relu").unwrap();
    let t = ByteMatrix::from_rows(3, 3, &vec![0, 1, 0, 1, 0, 0, 0, 0, 1]).unwrap();
    assert_eq!(
        net.accuracy(shape(3, 6), &vec![1, 0, 0], &t),
        Ok(Accuracy { correct: 2, samples: 3 })
    );
    match net.layers[1] {
        Layer::BatchNormalisation(b) => {
            assert_eq!(b.running_mean, Some(4));
            assert_eq!(b.xc, None);
        }
        _ => panic!("the second layer is a normalisation"),
    }
    let mut plain = MultiLayer::new(6, vec![4], 3, "relu", "relu").unwrap();
    assert_eq!(
        plain.accuracy(shape(3, 6), &vec![1, 0, 2], &t),
        Ok(Accuracy { correct: 3, samples: 3 })
    );
    let mut two = TwoLayerNet::new(6, 4, 3);
    assert_eq!(
        two.accuracy(shape(3, 6), &vec![0, 1, 1], &t),
        Ok(Accuracy { correct: 0, samples: 3 })
    );
    assert_eq!(two.layers.affine1.x, Some(shape(3, 6)));
}

#[test]
fn accuracy_of_a_network_refuses_what_does_not_fit() {
    let t = ByteMatrix::from_rows(3, 3, &vec![0, 1, 0, 1, 0, 0, 0, 0, 1]).unwrap();
    let mut net = MultiLayerNetExtended::new(6, vec![4], 3, "relu", "relu").unwrap();
    assert_eq!(
        net.accuracy(shape(3, 5), &vec![1, 0, 0], &t),
        Err(LayerError::ShapeMismatch)
    );
    assert_eq!(
        net.accuracy(shape(3, 6), &vec![1, 0], &t),
        Err(LayerError::ShapeMismatch)
    );
    let no_class = ByteMatrix::zeros(3, 0).unwrap();
    assert_eq!(
        net.accuracy(shape(3, 6), &vec![0, 0, 0], &no_class),
        Err(LayerError::ShapeMismatch)
    );
    let mut two = TwoLayerNet::new(6, 4, 3);
    assert_eq!(
        two.accuracy(shape(3, 7), &vec![0, 1, 1], &t),
        Err(LayerError::ShapeMismatch)
    );
    assert_eq!(two.layers.affine1.x, None);
    let fewer_targets = ByteMatrix::from_rows(2, 3, &vec![0, 1, 0, 1, 0, 0]).unwrap();
    assert_eq!(
        two.accuracy(shape(3, 6), &vec![1, 0, 2], &fewer_targets),
        Ok(Accuracy { correct: 2, samples: 3 })
    );
}

#[test]
fn every_layer_finds_its_parameters() {
    let with: Vec<usize> = (0..7).map(|k| parameter_index(k, true)).collect();
    assert_eq!(with, vec![0, 0, 0, 1, 1, 1, 2]);
    let without: Vec<usize> = (0..5).map(|k| parameter_index(k, false)).collect();
    assert_eq!(without, vec![0, 0, 1, 1, 2]);
}

#[test]
fn weights_are_scaled_by_their_inputs() {
    let he = MultiLayerNetExtended::new(784, vec![100, 50], 10, "he", "relu").unwrap();
    assert_eq!(
        he.weight_scales(),
        vec![
            WeightScale::SqrtOver { numerator: 2, fan_in: 784 },
            WeightScale::SqrtOver { numerator: 2, fan_in: 100 },
            WeightScale::SqrtOver { numerator: 2, fan_in: 50 },
        ]
    );
    let xavier = MultiLayer::new(20, vec![8], 4, "sigmoid", "sigmoid").unwrap();
    assert_eq!(
        xavier.weight_scales(),
        vec![
            WeightScale::SqrtOver { numerator: 1, fan_in: 20 },
            WeightScale::SqrtOver { numerator: 1, fan_in: 8 },
        ]
    );
    let fixed = MultiLayer::new(20, vec![8], 4, "default", "relu").unwrap();
    assert_eq!(fixed.weight_scales(), vec![WeightScale::Fixed; 2]);
}
