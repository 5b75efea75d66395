use curv_kzen::elliptic::curves::ed25519::{FE, GE};
use curv_kzen::elliptic::curves::traits::{ECPoint, ECScalar};
use itertools::multizip;
use semi_honest_ot::direct;
use semi_honest_ot::masked::{
    first_round, first_round_batch, output_computation, output_computation_batch, second_round,
    second_round_batch,
};
use semi_honest_ot::OtError;

fn random_bytes() -> Vec<u8> {
    FE::new_random().get_element().to_bytes().to_vec()
}

fn generate_test_inputs() -> (u8, Vec<u8>, Vec<u8>) {
    let sigma = rand::random::<bool>() as u8;
    let x_0 = random_bytes();
    let x_1 = random_bytes();
    (sigma, x_0, x_1)
}

fn generate_test_inputs_batch(n_parties: usize) -> (Vec<u8>, Vec<Vec<u8>>, Vec<Vec<u8>>) {
    let tmp_vec: Vec<_> = (0..n_parties).map(|_| generate_test_inputs()).collect();
    let sigma_vec = tmp_vec.iter().map(|x| x.0).collect();
    let x_0_vec = tmp_vec.iter().map(|x| x.1.clone()).collect();
    let x_1_vec = tmp_vec.iter().map(|x| x.2.clone()).collect();
    (sigma_vec, x_0_vec, x_1_vec)
}

#[test]
fn semi_honest_ot() {
    let sigma = 0;
    let x_0 = FE::new_random().get_element().to_bytes().to_vec();
    let x_1 = FE::new_random().get_element().to_bytes().to_vec();

    let (a_i, h_0, h_1) = first_round(sigma).unwrap();
    let (u, v_0, v_1) = second_round(&x_0, h_0, &x_1, h_1).unwrap();
    let x = output_computation(sigma, a_i, u, v_0, v_1).unwrap();

    assert_eq!(x_0, x);

    let sigma = 1;
    let x_0 = FE::new_random().get_element().to_bytes().to_vec();
    let x_1 = FE::new_random().get_element().to_bytes().to_vec();

    let (a_i, h_0, h_1) = first_round(sigma).unwrap();
    let (u, v_0, v_1) = second_round(&x_0, h_0, &x_1, h_1).unwrap();
    let x = output_computation(sigma, a_i, u, v_0, v_1).unwrap();

    assert_eq!(x_1, x);
}

#[test]
fn semi_honest_ot_batch_3() {
    let (sigma_vec, x_0_vec, x_1_vec) = generate_test_inputs_batch(3);
    let (a_i_vec, h_0_vec, h_1_vec) = first_round_batch(sigma_vec.clone()).unwrap();
    let (u_vec, v_0_vec, v_1_vec) =
        second_round_batch(x_0_vec.clone(), h_0_vec, x_1_vec.clone(), h_1_vec).unwrap();
    let x_vec =
        output_computation_batch(sigma_vec.clone(), a_i_vec, u_vec, v_0_vec, v_1_vec).unwrap();
    assert_eq!(x_vec.len(), 3);
    multizip((sigma_vec, x_vec, x_0_vec, x_1_vec))
        .map(|(sigma, x, x_0, x_1)| {
            if sigma == 0 {
                assert_eq!(x, x_0)
            }
            if sigma == 1 {
                assert_eq!(x, x_1)
            }
        })
        .for_each(drop);
}

#[test]
fn masked_transfer_of_branch_zero() {
    let x_0 = random_bytes();
    let x_1 = random_bytes();
    assert_eq!(x_0.len(), 32);
    assert_eq!(x_1.len(), 32);
    let (a, h_0, h_1) = first_round(0).unwrap();
    let (u, v_0, v_1) = second_round(&x_0, h_0, &x_1, h_1).unwrap();
    assert_eq!(v_0.len(), 32);
    assert_eq!(v_1.len(), 32);
    assert_eq!(output_computation(0, a, u, v_0, v_1), Ok(x_0));
}

#[test]
fn masked_transfer_holds_for_both_bits() {
    for sigma in 0..2u8 {
        for _ in 0..8 {
            let x_0 = random_bytes();
            let x_1 = random_bytes();
            let (a, h_0, h_1) = first_round(sigma).unwrap();
            let (u, v_0, v_1) = second_round(&x_0, h_0, &x_1, h_1).unwrap();
            let x = output_computation(sigma, a, u, v_0, v_1).unwrap();
            assert_eq!(x, if sigma == 0 { x_0 } else { x_1 });
        }
    }
}

#[test]
fn masked_wrong_bit_misses_both_messages() {
    let x_0 = random_bytes();
    let x_1 = random_bytes();
    let (a, h_0, h_1) = first_round(0).unwrap();
    let (u, v_0, v_1) = second_round(&x_0, h_0, &x_1, h_1).unwrap();
    let right = output_computation(0, a, u, v_0.clone(), v_1.clone()).unwrap();
    let wrong = output_computation(1, a, u, v_0, v_1).unwrap();
    assert_eq!(right, x_0);
    assert_ne!(wrong, x_0);
    assert_ne!(wrong, x_1);
}

#[test]
fn direct_wrong_bit_misses_both_messages() {
    let g = GE::generator();
    let x_0 = g * FE::new_random();
    let x_1 = g * FE::new_random();
    let (a, h_0, h_1) = direct::first_round(1).unwrap();
    let (u, v_0, v_1) = direct::second_round(x_0, h_0, x_1, h_1);
    let right = direct::output_computation(1, a, u, v_0, v_1).unwrap();
    let wrong = direct::output_computation(0, a, u, v_0, v_1).unwrap();
    assert!(right == x_1);
    assert!(wrong != x_0);
    assert!(wrong != x_1);
}

#[test]
fn invalid_choice_bit_is_refused() {
    assert!(matches!(first_round(2), Err(OtError::InvalidChoiceBit)));
    assert!(matches!(first_round(255), Err(OtError::InvalidChoiceBit)));
    let x_0 = random_bytes();
    let x_1 = random_bytes();
    let (a, h_0, h_1) = first_round(0).unwrap();
    let (u, v_0, v_1) = second_round(&x_0, h_0, &x_1, h_1).unwrap();
    assert_eq!(
        output_computation(2, a, u, v_0, v_1),
        Err(OtError::InvalidChoiceBit)
    );
    assert!(matches!(
        direct::first_round(2),
        Err(OtError::InvalidChoiceBit)
    ));
    assert!(matches!(
        direct::output_computation(2, a, u, h_0, h_1),
        Err(OtError::InvalidChoiceBit)
    ));
}

#[test]
fn direct_transfer_of_branch_one() {
    let g = GE::generator();
    let k_1 = FE::new_random();
    let k_2 = FE::new_random();
    let x_0 = g * k_1;
    let x_1 = g * k_2;
    let (a, h_0, h_1) = direct::first_round(1).unwrap();
    let (u, v_0, v_1) = direct::second_round(x_0, h_0, x_1, h_1);
    let x = direct::output_computation(1, a, u, v_0, v_1).unwrap();
    assert!(x == x_1);
    assert_eq!(
        x.get_element().to_bytes(),
        x_1.get_element().to_bytes()
    );

    let other = g * FE::new_random();
    let (u, v_0, v_1) = direct::second_round(other, h_0, x_1, h_1);
    let x = direct::output_computation(1, a, u, v_0, v_1).unwrap();
    assert!(x == x_1);
}

#[test]
fn direct_transfer_holds_for_both_bits() {
    let g = GE::generator();
    for sigma in 0..2u8 {
        for _ in 0..8 {
            let x_0 = g * FE::new_random();
            let x_1 = g * FE::new_random();
            let (a, h_0, h_1) = direct::first_round(sigma).unwrap();
            let (u, v_0, v_1) = direct::second_round(x_0, h_0, x_1, h_1);
            let x = direct::output_computation(sigma, a, u, v_0, v_1).unwrap();
            assert!(x == if sigma == 0 { x_0 } else { x_1 });
        }
    }
}

#[test]
fn masked_batch_of_three_follows_each_bit() {
    let sigma_vec: Vec<u8> = vec![0, 1, 0];
    let x_0_vec: Vec<Vec<u8>> = (0..3).map(|_| random_bytes()).collect();
    let x_1_vec: Vec<Vec<u8>> = (0..3).map(|_| random_bytes()).collect();
    let (a_vec, h_0_vec, h_1_vec) = first_round_batch(sigma_vec.clone()).unwrap();
    assert_eq!((a_vec.len(), h_0_vec.len(), h_1_vec.len()), (3, 3, 3));
    let (u_vec, v_0_vec, v_1_vec) =
        second_round_batch(x_0_vec.clone(), h_0_vec, x_1_vec.clone(), h_1_vec).unwrap();
    assert_eq!((u_vec.len(), v_0_vec.len(), v_1_vec.len()), (3, 3, 3));
    let x_vec = output_computation_batch(sigma_vec, a_vec, u_vec, v_0_vec, v_1_vec).unwrap();
    assert_eq!(x_vec.len(), 3);
    assert_eq!(x_vec[0], x_0_vec[0]);
    assert_eq!(x_vec[1], x_1_vec[1]);
    assert_eq!(x_vec[2], x_0_vec[2]);
}

#[test]
fn masked_batch_agrees_with_single_rounds() {
    let sigma_vec: Vec<u8> = vec![1, 0, 0, 1];
    let x_0_vec: Vec<Vec<u8>> = (0..4).map(|_| random_bytes()).collect();
    let x_1_vec: Vec<Vec<u8>> = (0..4).map(|_| random_bytes()).collect();
    let (a_vec, h_0_vec, h_1_vec) = first_round_batch(sigma_vec.clone()).unwrap();
    let (u_vec, v_0_vec, v_1_vec) = second_round_batch(
        x_0_vec.clone(),
        h_0_vec.clone(),
        x_1_vec.clone(),
        h_1_vec.clone(),
    )
    .unwrap();
    let x_vec = output_computation_batch(
        sigma_vec.clone(),
        a_vec.clone(),
        u_vec.clone(),
        v_0_vec.clone(),
        v_1_vec.clone(),
    )
    .unwrap();
    for i in 0..4 {
        let single = output_computation(
            sigma_vec[i],
            a_vec[i],
            u_vec[i],
            v_0_vec[i].clone(),
            v_1_vec[i].clone(),
        )
        .unwrap();
        assert_eq!(x_vec[i], single);
        assert_eq!(
            single,
            if sigma_vec[i] == 0 {
                x_0_vec[i].clone()
            } else {
                x_1_vec[i].clone()
            }
        );
    }
}

#[test]
fn direct_batch_of_three_follows_each_bit() {
    let g = GE::generator();
    let sigma_vec: Vec<u8> = vec![0, 1, 0];
    let x_0_vec: Vec<GE> = (0..3).map(|_| g * FE::new_random()).collect();
    let x_1_vec: Vec<GE> = (0..3).map(|_| g * FE::new_random()).collect();
    let (a_vec, h_0_vec, h_1_vec) = direct::first_round_batch(sigma_vec.clone()).unwrap();
    let (u_vec, v_0_vec, v_1_vec) =
        direct::second_round_batch(x_0_vec.clone(), h_0_vec, x_1_vec.clone(), h_1_vec).unwrap();
    let x_vec =
        direct::output_computation_batch(sigma_vec, a_vec, u_vec, v_0_vec, v_1_vec).unwrap();
    assert_eq!(x_vec.len(), 3);
    assert!(x_vec[0] == x_0_vec[0]);
    assert!(x_vec[1] == x_1_vec[1]);
    assert!(x_vec[2] == x_0_vec[2]);
}
