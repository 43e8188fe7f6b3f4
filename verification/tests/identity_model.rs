use candid::Principal;
use capstone_backend::identity::{Identity, MAX_IDENTITY_BYTES};

fn samples() -> Vec<Vec<u8>> {
    vec![
        vec![],
        vec![0],
        vec![4],
        vec![0, 0],
        vec![1, 2, 3],
        vec![1, 2, 3, 0],
        vec![3, 2, 1],
        vec![0xff; 28],
        vec![0xff; 29],
        vec![0; 29],
    ]
}

#[test]
fn identity_limit_is_that_of_a_principal() {
    assert_eq!(MAX_IDENTITY_BYTES, Principal::MAX_LENGTH_IN_BYTES);
    for len in 0..40usize {
        let bytes = vec![7u8; len];
        assert_eq!(
            Identity::from_bytes(bytes.clone()).is_some(),
            Principal::try_from_slice(&bytes).is_ok()
        );
    }
}

#[test]
fn identity_holds_the_bytes_of_a_principal() {
    for bytes in samples() {
        let principal = Principal::from_slice(&bytes);
        let identity = Identity::from_bytes(principal.as_slice().to_vec()).unwrap();
        assert_eq!(identity.as_bytes(), principal.as_slice());
        assert_eq!(Principal::from_slice(identity.as_bytes()), principal);
    }
    let anonymous = Identity::from_bytes(Principal::anonymous().as_slice().to_vec()).unwrap();
    assert_eq!(anonymous.as_bytes(), &[4]);
}

#[test]
fn identities_are_equal_where_principals_are() {
    for a in samples() {
        for b in samples() {
            let same_principal = Principal::from_slice(&a) == Principal::from_slice(&b);
            let left = Identity::from_bytes(a.clone()).unwrap();
            let right = Identity::from_bytes(b.clone()).unwrap();
            assert_eq!(left.same(&right), same_principal);
            assert_eq!(left == right, same_principal);
        }
    }
}
