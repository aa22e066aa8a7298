use crane_game::credentials::{encode_password, login_name, random_bytes_from_words, tunnel_password};

#[test]
fn random_words_are_laid_out_big_endian() {
    assert_eq!(
        random_bytes_from_words([0x01234567, 0x89abcdef, 0xfedcba98, 0x76543210]),
        vec![0x01, 0x23, 0x45, 0x67, 0x89, 0xab, 0xcd, 0xef, 0xfe, 0xdc, 0xba, 0x98, 0x76, 0x54, 0x32, 0x10]
    );
}

#[test]
fn login_name_is_a_random_uuid() {
    assert_eq!(login_name([0x01234567, 0x89abcdef, 0xfedcba98, 0x76543210]), "01234567-89ab-4def-bedc-ba9876543210");
    assert_eq!(login_name([0, 0, 0, 0]), "00000000-0000-4000-8000-000000000000");
    let name = login_name([u32::MAX; 4]);
    assert_eq!(name, "ffffffff-ffff-4fff-bfff-ffffffffffff");
}

#[test]
fn password_is_the_hmac_of_the_login_name() {
    assert_eq!(
        tunnel_password("crane-game@v1", "00000000-0000-4000-8000-000000000000"),
        "N+41lBJjoT9XHAlkfGh7OMmQWVvxO4bSe8Z5b3aOa6M="
    );
    assert_eq!(tunnel_password("key", "msg"), "LZPLwb4We8sWN6SiPL/wGnh48MUO6DOVTqUiG7G4xig=");
    let name = login_name([0x01234567, 0x89abcdef, 0xfedcba98, 0x76543210]);
    let password = tunnel_password("crane-game@v1", &name);
    assert_eq!(password, "YDWT3hMlndtZMJ0gXjaTkOEYxko4w5/kINgJEcHttJM=");
    assert_eq!(password.len(), 44);
}

#[test]
fn tags_are_written_in_padded_base64() {
    assert_eq!(encode_password(b""), "");
    assert_eq!(encode_password(b"f"), "Zg==");
    assert_eq!(encode_password(b"fo"), "Zm8=");
    assert_eq!(encode_password(b"foo"), "Zm9v");
    assert_eq!(encode_password(&[0xfb, 0xff, 0xbf]), "+/+/");
    assert_eq!(encode_password(&[0u8; 32]).len(), 44);
}

#[test]
fn token_request_body_is_json() {
    assert_eq!(
        crane_game::credentials::authentication_request("crane-game@v1", "id", "p+/="),
        "{\"audience\":\"crane-game@v1\",\"user\":\"id\",\"password\":\"p+/=\"}"
    );
    assert_eq!(
        crane_game::credentials::authentication_request("a\"", "\\", "\n"),
        "{\"audience\":\"a\\\"\",\"user\":\"\\\\\",\"password\":\"\\n\"}"
    );
}
