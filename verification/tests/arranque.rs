use backend::arranque::{datos_dev_inicial, origenes_cors, puerto};

#[test]
fn puerto_del_servidor() {
    assert_eq!(puerto(None), Ok(3000));
    assert_eq!(puerto(Some("8080")), Ok(8080));
    assert_eq!(puerto(Some("+80")), Ok(80));
    assert_eq!(puerto(Some("65535")), Ok(65535));
    assert_eq!(puerto(Some("0")), Ok(0));
    assert_eq!(
        puerto(Some("70000")),
        Err("PORT tiene un valor inválido: '70000' (se esperaba un número entre 1 y 65535)".to_string())
    );
    assert!(puerto(Some("abc")).is_err());
    assert!(puerto(Some("")).is_err());
    assert!(puerto(Some("+")).is_err());
    assert!(puerto(Some("-1")).is_err());
    assert!(puerto(Some(" 80")).is_err());
}

#[test]
fn puerto_igual_que_parse() {
    for texto in ["1", "00080", "65536", "99999999999", "+0", "8o", "", "+", "42"] {
        assert_eq!(puerto(Some(texto)).ok(), texto.parse::<u16>().ok(), "{texto}");
    }
}

#[test]
fn origenes_de_cors() {
    assert_eq!(
        origenes_cors(None),
        vec!["http://localhost:8080".to_string(), "http://127.0.0.1:8080".to_string()]
    );
    assert_eq!(
        origenes_cors(Some(" https://a.mx , ,https://b.mx,")),
        vec!["https://a.mx".to_string(), "https://b.mx".to_string()]
    );
    assert!(origenes_cors(Some(" , ")).is_empty());
}

#[test]
fn dev_inicial() {
    assert_eq!(datos_dev_inicial(true, None, None), Ok(None));
    assert_eq!(
        datos_dev_inicial(false, None, Some("x")),
        Err("No existe ningún dev y falta DEV_EMAIL en el .env para crearlo".to_string())
    );
    assert_eq!(
        datos_dev_inicial(false, Some("a@b.mx"), None),
        Err("No existe ningún dev y falta DEV_PASSWORD en el .env para crearlo".to_string())
    );
    assert_eq!(
        datos_dev_inicial(false, Some("a@b.mx"), Some("clave")),
        Ok(Some(("a@b.mx".to_string(), "clave".to_string())))
    );
}
