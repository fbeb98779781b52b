use digit_recognizer::activation::Activation;
use digit_recognizer::cost::Cost;

#[test]
fn activation_kinds_are_distinct_values() {
    let kinds = [
        Activation::Sigmoid,
        Activation::TanH,
        Activation::ReLU,
        Activation::SiLU,
        Activation::SoftMax,
    ];
    for (i, a) in kinds.iter().enumerate() {
        for (j, b) in kinds.iter().enumerate() {
            assert_eq!(a == b, i == j);
        }
    }
    let copy = kinds[2];
    assert_eq!(copy, Activation::ReLU);
}

#[test]
fn cost_kinds_are_distinct_values() {
    assert_ne!(Cost::MeanSquareError, Cost::CrossEntropy);
    let copy = Cost::CrossEntropy;
    assert_eq!(copy, Cost::CrossEntropy);
}
