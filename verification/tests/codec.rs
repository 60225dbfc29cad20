use acme_lib::codec::{base64url, unbase64url};
use acme_lib::error::{Encoding, Error};

#[test]
fn encodes_known_vectors() {
    assert_eq!(base64url(b""), "");
    assert_eq!(base64url(b"f"), "Zg");
    assert_eq!(base64url(b"fo"), "Zm8");
    assert_eq!(base64url(b"foo"), "Zm9v");
    assert_eq!(base64url(b"foob"), "Zm9vYg");
    assert_eq!(base64url(b"fooba"), "Zm9vYmE");
    assert_eq!(base64url(b"foobar"), "Zm9vYmFy");
}

#[test]
fn uses_the_url_safe_alphabet() {
    assert_eq!(base64url(&[0xfb, 0xff]), "-_8");
    assert_eq!(base64url(&[0xff, 0xff, 0xfe]), "___-");
}

#[test]
fn decodes_known_vectors() {
    assert_eq!(unbase64url("").unwrap(), b"".to_vec());
    assert_eq!(unbase64url("Zg").unwrap(), b"f".to_vec());
    assert_eq!(unbase64url("Zm9vYmE").unwrap(), b"fooba".to_vec());
    assert_eq!(unbase64url("-_8").unwrap(), vec![0xfb, 0xff]);
}

#[test]
fn round_trips_every_length() {
    let mut bytes: Vec<u8> = Vec::new();
    for i in 0..300u32 {
        let text = base64url(&bytes);
        assert_eq!(unbase64url(&text).unwrap(), bytes);
        bytes.push((i * 37 % 256) as u8);
    }
}

#[test]
fn round_trips_empty_input() {
    let text = base64url(&[]);
    assert_eq!(text, "");
    assert_eq!(unbase64url(&text).unwrap(), Vec::<u8>::new());
}

#[test]
fn tolerated_padding_decodes_to_the_unpadded_bytes() {
    assert_eq!(unbase64url("Zg==").unwrap(), b"f".to_vec());
    assert_eq!(unbase64url("Zm8=").unwrap(), b"fo".to_vec());
}

#[test]
fn refuses_malformed_text() {
    let expected = Err(Error::Decode { encoding: Encoding::Base64 });
    assert_eq!(unbase64url("Z"), expected);
    assert_eq!(unbase64url("Zm9v Zg"), expected);
    assert_eq!(unbase64url("Zm+v"), expected);
    assert_eq!(unbase64url("Zh"), expected);
    assert_eq!(unbase64url("=Zg"), expected);
}

#[test]
fn padding_may_fill_the_last_group_and_no_more() {
    assert_eq!(unbase64url("Zg=").unwrap(), b"f".to_vec());
    assert_eq!(unbase64url("Zm9vZg==").unwrap(), b"foof".to_vec());
    assert_eq!(unbase64url("Zm9vZm8=").unwrap(), b"foofo".to_vec());
    let refused = Err(Error::Decode { encoding: Encoding::Base64 });
    assert_eq!(unbase64url("Zg==="), refused);
    assert_eq!(unbase64url("Zm8=="), refused);
    assert_eq!(unbase64url("Zm9v="), refused);
    assert_eq!(unbase64url("="), refused);
    assert_eq!(unbase64url("Z=g"), refused);
}

fn accepted_by_rule(text: &str) -> bool {
    let body = text.trim_end_matches('=');
    let pad = text.len() - body.len();
    let canonical = unbase64url(body).map(|b| base64url(&b) == body).unwrap_or(false);
    canonical && (pad == 0 || (body.len() % 4 >= 2 && body.len() % 4 + pad <= 4))
}

#[test]
fn padding_is_accepted_where_it_completes_the_last_group() {
    let alphabet = ['Z', 'g', 'A', '=', '!', 'Q', '_'];
    let mut texts: Vec<String> = vec![String::new()];
    let mut start = 0;
    for _ in 0..6 {
        let end = texts.len();
        for i in start..end {
            for c in alphabet {
                let mut longer = texts[i].clone();
                longer.push(c);
                texts.push(longer);
            }
        }
        start = end;
    }
    assert_eq!(texts.len(), 1 + 7 + 49 + 343 + 2401 + 16807 + 117649);
    for text in &texts {
        assert_eq!(unbase64url(text).is_ok(), accepted_by_rule(text), "{:?}", text);
    }
    for text in ["Zm9vZm9vZg==", "Zm9vZm9vZm8=", "Zm9vZm9vZm9v=", "Zm9vZm9vZg=", "Zm9vZm9vZ===", "Zm9vZm9vZm9vZm9vZm9vZm9vZm9vZm9vZm9vZg==", "Zm9vZm9vZm9vZm9vZm9vZm9vZm9vZm9vZm9vZg=", "Zm9v=Zm9"] {
        assert_eq!(unbase64url(text).is_ok(), accepted_by_rule(text), "{:?}", text);
    }
}
