use backend::tokens::{
    generar_token_opaco, hash_token, vencimiento_invitacion, vencimiento_refresh,
    vencimiento_reset, MICROS_POR_DIA, MICROS_POR_HORA,
};

#[test]
fn hash_sha256_en_hexadecimal() {
    assert_eq!(
        hash_token("abc"),
        "ba7816bf8f01cfea414140de5dae2223b00361a396177a9cb410ff61f20015ad"
    );
    assert_eq!(
        hash_token(""),
        "e3b0c44298fc1c149afbf4c8996fb92427ae41e4649b934ca495991b7852b855"
    );
    assert_ne!(hash_token("abc"), hash_token("abd"));
}

#[test]
fn token_opaco_de_64_hex() {
    let a = generar_token_opaco();
    let b = generar_token_opaco();
    assert_eq!(a.len(), 64);
    assert!(a.chars().all(|c| c.is_ascii_hexdigit() && !c.is_ascii_uppercase()));
    assert_ne!(a, b);
    assert_eq!(hash_token(&a).len(), 64);
}

#[test]
fn vencimientos_de_tokens() {
    assert_eq!(vencimiento_refresh(0), 30 * MICROS_POR_DIA);
    assert_eq!(vencimiento_invitacion(10), 10 + 72 * MICROS_POR_HORA);
    assert_eq!(vencimiento_reset(10), 10 + MICROS_POR_HORA);
}
