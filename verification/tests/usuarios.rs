use backend::errores::AppError;
use backend::usuarios::{normalizar_email, preparar_usuario, validar_password};

fn respuesta<T>(r: Result<T, AppError>) -> (u16, String) {
    match r {
        Ok(_) => (200, String::new()),
        Err(e) => (e.codigo_http(), e.mensaje_para_cliente()),
    }
}

#[test]
fn reglas_de_contrasena() {
    assert_eq!(
        respuesta(validar_password("corta")),
        (422, "La contraseña debe tener al menos 12 caracteres".to_string())
    );
    assert!(validar_password("doce-letras!").is_ok());
    // 12 caracteres pero 24 bytes: cuenta caracteres, no bytes.
    assert!(validar_password("ññññññññññññ").is_ok());
    let setenta_y_dos = "a".repeat(72);
    assert!(validar_password(&setenta_y_dos).is_ok());
    let setenta_y_tres = "a".repeat(73);
    assert_eq!(
        respuesta(validar_password(&setenta_y_tres)),
        (422, "La contraseña no puede superar 72 bytes".to_string())
    );
    // 37 caracteres de dos bytes = 74 bytes.
    let multibyte = "ñ".repeat(37);
    assert_eq!(
        respuesta(validar_password(&multibyte)),
        (422, "La contraseña no puede superar 72 bytes".to_string())
    );
}

#[test]
fn email_normalizado() {
    assert_eq!(normalizar_email("  Ana@Mail.com ").unwrap(), "ana@mail.com");
    assert_eq!(normalizar_email("a@b.c").unwrap(), "a@b.c");
    let invalido = (422, "Email inválido".to_string());
    assert_eq!(respuesta(normalizar_email("a@bc")), invalido);
    assert_eq!(respuesta(normalizar_email("sin-arroba.com")), invalido);
    assert_eq!(respuesta(normalizar_email("ana maria@mail.com")), invalido);
    assert_eq!(respuesta(normalizar_email("   ")), invalido);
}

#[test]
fn preparar_usuario_valida_en_orden_y_hashea() {
    assert_eq!(
        respuesta(preparar_usuario("", "malo", "corta")),
        (422, "Email inválido".to_string())
    );
    assert_eq!(
        respuesta(preparar_usuario("", "ana@mail.com", "corta")),
        (422, "La contraseña debe tener al menos 12 caracteres".to_string())
    );
    assert_eq!(
        respuesta(preparar_usuario("   ", "ana@mail.com", "una-frase-larga")),
        (422, "El nombre no puede estar vacío".to_string())
    );
    let u = preparar_usuario("  Ana  ", " ANA@mail.com", "una-frase-larga").unwrap();
    assert_eq!(u.name, "Ana");
    assert_eq!(u.email, "ana@mail.com");
    assert!(bcrypt::verify("una-frase-larga", &u.password_hash).unwrap());
    assert!(!bcrypt::verify("otra-frase-larga", &u.password_hash).unwrap());
}
