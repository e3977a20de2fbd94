use prod_craft::redirect_signing::{decode_lower_hex, encode, verify};
use prod_craft::startup::HmacSecret;

fn secret() -> HmacSecret {
    HmacSecret::new(b"test-secret-key".to_vec())
}

#[test]
fn encode_percent_encodes_and_tags_with_hmac_sha256() {
    let m = encode(&secret(), "Authentication failed");
    assert_eq!(m.payload, "Authentication%20failed");
    assert_eq!(m.tag, "3689074e2bac565f0cf7f237890dda1a82e3d015752590d2fec218756d7d3c64");
}

#[test]
fn encode_leaves_unreserved_text_as_it_is() {
    let m = encode(&secret(), "Jefe");
    assert_eq!(m.payload, "Jefe");
    assert_eq!(m.tag, "2ac2f128d7763d9af2b561ec3fff9236fcca3effff600bf7ad4defc2bc5abb24");
}

#[test]
fn encode_escapes_reserved_and_non_ascii_bytes() {
    let m = encode(&secret(), "héllo wörld!/?&=");
    assert_eq!(m.payload, "h%C3%A9llo%20w%C3%B6rld%21%2F%3F%26%3D");
    assert_eq!(m.tag.len(), 64);
}

#[test]
fn verify_gives_back_the_encoded_message() {
    for text in ["Authentication failed", "", "héllo wörld!/?&=", "100% sure + more"] {
        let m = encode(&secret(), text);
        assert_eq!(verify(&secret(), &m.payload, &m.tag), Some(text.to_string()));
    }
}

#[test]
fn verify_rejects_any_changed_tag_byte() {
    let m = encode(&secret(), "Authentication failed");
    let tag = m.tag.as_bytes();
    for i in 0..tag.len() {
        let mut t = tag.to_vec();
        t[i] = if t[i] == b'0' { b'1' } else { b'0' };
        let t = String::from_utf8(t).unwrap();
        assert_eq!(verify(&secret(), &m.payload, &t), None);
    }
}

#[test]
fn verify_rejects_any_changed_payload_byte() {
    let m = encode(&secret(), "Authentication failed");
    let payload = m.payload.as_bytes();
    for i in 0..payload.len() {
        let mut p = payload.to_vec();
        p[i] = if p[i] == b'x' { b'y' } else { b'x' };
        let p = String::from_utf8(p).unwrap();
        assert_eq!(verify(&secret(), &p, &m.tag), None);
    }
}

#[test]
fn verify_rejects_upper_case_short_and_foreign_tags() {
    let m = encode(&secret(), "Authentication failed");
    assert_eq!(verify(&secret(), &m.payload, &m.tag.to_uppercase()), None);
    assert_eq!(verify(&secret(), &m.payload, &m.tag[..62]), None);
    assert_eq!(verify(&secret(), &m.payload, &m.tag[..63]), None);
    assert_eq!(verify(&secret(), &m.payload, ""), None);
    let other = HmacSecret::new(b"another key".to_vec());
    assert_eq!(verify(&other, &m.payload, &m.tag), None);
}

#[test]
fn verify_refuses_payload_that_decodes_to_invalid_utf8() {
    // The tag is the true HMAC of the bytes "%FF", which decode to a lone 0xFF.
    let tag = "f3e1ee2219fcd58e3b31d6c119683722b53891570e21295991b58e42daa209f7";
    assert_eq!(verify(&secret(), "%FF", tag), None);
}

#[test]
fn verify_decodes_hand_written_payload_with_true_tag() {
    let tag = "386acdf6fdac5d34f61caf0f3ee940bc98765345a85d08d4a66dcbcbc8a6fab0";
    assert_eq!(verify(&secret(), "caf%C3%A9", tag), Some("café".to_string()));
}

#[test]
fn login_location_carries_payload_and_tag() {
    let m = encode(&secret(), "Authentication failed");
    assert_eq!(
        m.login_location(),
        "/login?error=Authentication%20failed&tag=3689074e2bac565f0cf7f237890dda1a82e3d015752590d2fec218756d7d3c64"
    );
}

#[test]
fn decode_lower_hex_reads_pairs_of_digits() {
    assert_eq!(decode_lower_hex(b"00ff10a9"), Some(vec![0x00, 0xff, 0x10, 0xa9]));
    assert_eq!(decode_lower_hex(b""), Some(vec![]));
    assert_eq!(decode_lower_hex(b"0"), None);
    assert_eq!(decode_lower_hex(b"0F"), None);
    assert_eq!(decode_lower_hex(b"zz"), None);
}
