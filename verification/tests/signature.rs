use kp::{verify_sign, Authority, KpError, Signed};
use sp_core::sr25519::Pair;
use sp_core::Pair as _;

fn pair(seed: u8) -> Pair {
    Pair::from_seed(&[seed; 32])
}

fn signed(by: &Pair, msg: &[u8]) -> Signed {
    Signed { key: by.public().0, sign: by.sign(msg).0, msg: msg.to_vec() }
}

#[test]
fn a_signature_holds_for_its_key_and_message_only() {
    let alice = pair(1);
    let bob = pair(2);
    let msg = b"publish shoes".to_vec();
    let sign = alice.sign(&msg).0;
    assert!(verify_sign(&alice.public().0, &sign, &msg));
    assert!(!verify_sign(&bob.public().0, &sign, &msg));
    assert!(!verify_sign(&alice.public().0, &sign, &b"publish hats".to_vec()));
    assert!(!verify_sign(&alice.public().0, &sign, &Vec::new()));
    let mut bent = sign;
    bent[3] ^= 1;
    assert!(!verify_sign(&alice.public().0, &bent, &msg));
    assert!(!verify_sign(&alice.public().0, &[0u8; 64], &msg));
    assert!(!verify_sign(&[0xffu8; 32], &sign, &msg));
    // the empty message can be signed too
    let empty = alice.sign(&[]).0;
    assert!(verify_sign(&alice.public().0, &empty, &Vec::new()));
}

#[test]
fn authority_follows_from_the_two_signatures() {
    let user = pair(3);
    let server = pair(4);
    let msg = b"submission";
    let good = Authority::of(&signed(&user, msg), &signed(&server, msg), true, true);
    assert_eq!(
        good,
        Authority { user_signed: true, auth_signed: true, app_valid: true, app_key_valid: true }
    );
    assert_eq!(good.check(), None);
    // the server's signature under the user's key
    let mut swapped = signed(&server, msg);
    swapped.key = user.public().0;
    let bad_user = Authority::of(&swapped, &signed(&server, msg), true, true);
    assert!(!bad_user.user_signed && bad_user.auth_signed);
    assert_eq!(bad_user.check(), Some(KpError::SignVerifyErrorUser));
    let mut other = signed(&server, msg);
    other.msg = b"another".to_vec();
    let bad_auth = Authority::of(&signed(&user, msg), &other, true, false);
    assert!(bad_auth.user_signed && !bad_auth.auth_signed && !bad_auth.app_key_valid);
    assert_eq!(bad_auth.check(), Some(KpError::SignVerifyErrorAuth));
    let unknown = Authority::of(&signed(&user, msg), &signed(&server, msg), false, true);
    assert_eq!(unknown.check(), Some(KpError::AppIdInvalid));
}
