use mnist_core::activations::ActivationFunctions;

fn codes(xs: &[f64]) -> Vec<u64> {
    xs.iter().map(|x| x.to_bits()).collect()
}

fn positive_mask(xs: &[f64]) -> Vec<bool> {
    xs.iter().map(|x| *x > 0.0).collect()
}

#[test]
fn test_relu1d() {
    let x: Vec<f64> = vec![1.0, -1.0, 0.0];
    let y = ActivationFunctions::relu1d(&positive_mask(&x), &codes(&x));
    assert_eq!(y, codes(&[1.0, 0.0, 0.0]));
}

#[test]
fn test_relu2d() {
    let x: Vec<Vec<f64>> = vec![vec![1.0, -1.0], vec![0.0, 2.0]];
    let mask: Vec<Vec<bool>> = x.iter().map(|row| positive_mask(row)).collect();
    let xc: Vec<Vec<u64>> = x.iter().map(|row| codes(row)).collect();
    let y = ActivationFunctions::relu2d(&mask, &xc);
    assert_eq!(y, vec![codes(&[1.0, 0.0]), codes(&[0.0, 2.0])]);
}

#[test]
fn test_relu_backward1d() {
    let x: Vec<f64> = vec![1.0, -1.0, 0.0];
    let y: Vec<f64> = vec![1.0, 2.0, 3.0];
    let z = ActivationFunctions::relu_backward1d(&positive_mask(&x), &codes(&y));
    assert_eq!(z, codes(&[1.0, 0.0, 0.0]));
}

#[test]
fn test_relu_backward2d() {
    let x: Vec<Vec<f64>> = vec![vec![1.0, -1.0], vec![0.0, 2.0]];
    let y: Vec<Vec<f64>> = vec![vec![1.0, 2.0], vec![3.0, 4.0]];
    let mask: Vec<Vec<bool>> = x.iter().map(|row| positive_mask(row)).collect();
    let yc: Vec<Vec<u64>> = y.iter().map(|row| codes(row)).collect();
    let z = ActivationFunctions::relu_backward2d(&mask, &yc);
    assert_eq!(z, vec![codes(&[1.0, 0.0]), codes(&[0.0, 4.0])]);
}

#[test]
fn relu_backward_gates_every_position() {
    // The gating rule itself: masked positions pass the upstream gradient
    // through bit for bit, unmasked ones yield the zero code.
    let mask: Vec<bool> = vec![true, false, true, false];
    let g: Vec<u64> = vec![7, 8, 9, 10];
    let out = ActivationFunctions::relu_backward1d(&mask, &g);
    for i in 0..mask.len() {
        if mask[i] {
            assert_eq!(out[i], g[i]);
        } else {
            assert_eq!(out[i], 0);
        }
    }
}
