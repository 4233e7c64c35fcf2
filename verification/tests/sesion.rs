use backend::errores::AppError;
use backend::roles::RolGlobal;
use backend::sesion::{
    credenciales_invalidas, cuenta_para_refresh, decidir_login, estado_tras_login, evaluar_cuenta, evaluar_refresh,
    revoca_en_logout, tras_verificar_password, usuario_desde_claims, validar_invitacion, Claims,
    CuentaLogin, DecisionLogin, DecisionRefresh, InvitacionGuardada, RefreshGuardado,
    TokensRespuesta, MICROS_POR_MINUTO,
};

const AHORA: i64 = 1_780_000_000_000_000;

fn respuesta<T>(r: Result<T, AppError>) -> (u16, String) {
    match r {
        Ok(_) => (200, String::new()),
        Err(e) => (e.codigo_http(), e.mensaje_para_cliente()),
    }
}

fn cuenta(hash: &str, activa: bool, fallos: i32, bloqueo: Option<i64>) -> CuentaLogin {
    CuentaLogin {
        id: 42,
        password_hash: hash.to_string(),
        is_active: activa,
        failed_login_attempts: fallos,
        locked_until: bloqueo,
    }
}

#[test]
fn mensaje_generico_de_login() {
    let e = credenciales_invalidas();
    assert_eq!(e.codigo_http(), 401);
    assert_eq!(e.mensaje_para_cliente(), "Credenciales inválidas");
}

#[test]
fn decision_antes_de_la_contrasena() {
    assert_eq!(evaluar_cuenta(None, AHORA), Some(DecisionLogin::EmailDesconocido));
    let bloqueada = cuenta("h", true, 5, Some(AHORA + 1));
    assert_eq!(evaluar_cuenta(Some(&bloqueada), AHORA), Some(DecisionLogin::Bloqueada));
    let bloqueo_vencido_inactiva = cuenta("h", false, 5, Some(AHORA));
    assert_eq!(
        evaluar_cuenta(Some(&bloqueo_vencido_inactiva), AHORA),
        Some(DecisionLogin::Inactiva)
    );
    // Bloqueada e inactiva a la vez: manda el bloqueo (429).
    let ambas = cuenta("h", false, 5, Some(AHORA + 10));
    assert_eq!(evaluar_cuenta(Some(&ambas), AHORA), Some(DecisionLogin::Bloqueada));
    let normal = cuenta("h", true, 0, None);
    assert_eq!(evaluar_cuenta(Some(&normal), AHORA), None);
}

#[test]
fn quinto_fallo_bloquea_quince_minutos() {
    let c = cuenta("h", true, 4, None);
    let d = tras_verificar_password(&c, false, AHORA);
    let fin = AHORA + 15 * MICROS_POR_MINUTO;
    assert_eq!(
        d,
        DecisionLogin::PasswordIncorrecta { intentos: 5, bloquear_hasta: Some(fin) }
    );
    let tras = cuenta("h", true, 5, Some(fin));
    assert_eq!(evaluar_cuenta(Some(&tras), AHORA + MICROS_POR_MINUTO), Some(DecisionLogin::Bloqueada));
    assert_eq!(evaluar_cuenta(Some(&tras), fin - 1), Some(DecisionLogin::Bloqueada));
    assert_eq!(evaluar_cuenta(Some(&tras), fin), None);
}

#[test]
fn fallo_sin_bloqueo_y_login_correcto() {
    let c = cuenta("h", true, 1, Some(AHORA - 100));
    assert_eq!(
        tras_verificar_password(&c, false, AHORA),
        DecisionLogin::PasswordIncorrecta { intentos: 2, bloquear_hasta: None }
    );
    assert_eq!(tras_verificar_password(&c, true, AHORA), DecisionLogin::Correcta);
    let sexto = cuenta("h", true, 5, Some(AHORA - 100));
    assert_eq!(
        tras_verificar_password(&sexto, false, AHORA),
        DecisionLogin::PasswordIncorrecta {
            intentos: 6,
            bloquear_hasta: Some(AHORA + 15 * MICROS_POR_MINUTO)
        }
    );
}

#[test]
fn login_con_bcrypt_real() {
    let hash = bcrypt::hash("correcta-y-larga", 4).unwrap();
    let c = cuenta(&hash, true, 0, None);
    assert_eq!(
        decidir_login(Some(&c), "correcta-y-larga", AHORA).unwrap(),
        DecisionLogin::Correcta
    );
    assert_eq!(
        decidir_login(Some(&c), "otra-contrasena", AHORA).unwrap(),
        DecisionLogin::PasswordIncorrecta { intentos: 1, bloquear_hasta: None }
    );
    assert_eq!(
        decidir_login(None, "lo-que-sea", AHORA).unwrap(),
        DecisionLogin::EmailDesconocido
    );
    let inactiva = cuenta(&hash, false, 0, None);
    assert_eq!(
        decidir_login(Some(&inactiva), "correcta-y-larga", AHORA).unwrap(),
        DecisionLogin::Inactiva
    );
}

#[test]
fn hash_ilegible_es_error_interno() {
    let c = cuenta("no-es-un-hash", true, 0, None);
    match decidir_login(Some(&c), "x", AHORA) {
        Err(e) => {
            assert_eq!(e.codigo_http(), 500);
            assert!(e.detalle_interno().unwrap().starts_with("bcrypt: "));
        }
        Ok(d) => panic!("se esperaba error, llegó {:?}", d),
    }
}

#[test]
fn fallos_responden_igual() {
    let iguales = [
        DecisionLogin::EmailDesconocido,
        DecisionLogin::Inactiva,
        DecisionLogin::PasswordIncorrecta { intentos: 3, bloquear_hasta: None },
    ];
    for d in iguales {
        assert_eq!(respuesta(d.respuesta()), (401, "Credenciales inválidas".to_string()));
    }
    assert_eq!(
        respuesta(DecisionLogin::Bloqueada.respuesta()),
        (429, "Demasiados intentos, espera unos minutos".to_string())
    );
    assert!(DecisionLogin::Correcta.respuesta().is_ok());
}

#[test]
fn rotacion_de_refresh_tokens() {
    assert_eq!(evaluar_refresh(None, AHORA), DecisionRefresh::Desconocido);
    let vigente = RefreshGuardado { id: 1, user_id: 2, expires_at: AHORA + 1 };
    assert_eq!(
        evaluar_refresh(Some(vigente), AHORA),
        DecisionRefresh::Vigente { id: 1, user_id: 2 }
    );
    let usado = RefreshGuardado { id: 1, user_id: 2, expires_at: AHORA };
    assert_eq!(evaluar_refresh(Some(usado), AHORA), DecisionRefresh::Reuso { user_id: 2 });
    assert!(cuenta_para_refresh(true).is_ok());
    assert_eq!(respuesta(cuenta_para_refresh(false)), (401, "Sesión inválida".to_string()));
}

#[test]
fn logout_solo_revoca_tokens_propios() {
    assert!(revoca_en_logout(Some(3), 3));
    assert!(!revoca_en_logout(Some(4), 3));
    assert!(!revoca_en_logout(None, 3));
}

#[test]
fn respuesta_de_tokens() {
    let t = TokensRespuesta::nueva("a".to_string(), "r".to_string());
    assert_eq!(t.token_type, "Bearer");
    assert_eq!(t.expires_in, 900);
    assert_eq!(t.access_token, "a");
    assert_eq!(t.refresh_token, "r");
}

#[test]
fn claims_del_access_token() {
    let c = Claims::nuevas(77, "usuario", 1_700_000_000);
    assert_eq!(c.iat, 1_700_000_000);
    assert_eq!(c.exp, 1_700_000_900);
    let u = usuario_desde_claims(&c).unwrap();
    assert_eq!(u.id, 77);
    assert_eq!(u.rol, RolGlobal::Usuario);
    let malas = Claims::nuevas(77, "root", 0);
    assert_eq!(respuesta(usuario_desde_claims(&malas)).0, 500);
}

fn invitacion(expira: i64, usada: Option<i64>) -> InvitacionGuardada {
    InvitacionGuardada {
        id: 1,
        workspace_id: 2,
        invited_email: "ana@mail.com".to_string(),
        role: "member".to_string(),
        expires_at: expira,
        used_at: usada,
    }
}

#[test]
fn invitacion_valida_usada_o_vencida() {
    let ok = validar_invitacion(Some(invitacion(AHORA + 1, None)), AHORA).unwrap();
    assert_eq!(ok.workspace_id, 2);
    let msg = (401, "Invitación inválida o expirada".to_string());
    assert_eq!(respuesta(validar_invitacion(None, AHORA)), msg);
    assert_eq!(respuesta(validar_invitacion(Some(invitacion(AHORA, None)), AHORA)), msg);
    assert_eq!(
        respuesta(validar_invitacion(Some(invitacion(AHORA + 5, Some(AHORA - 5))), AHORA)),
        msg
    );
}

#[test]
fn estado_guardado_tras_el_login() {
    let c = cuenta("x", true, 3, Some(100));
    assert_eq!(estado_tras_login(&c, DecisionLogin::Correcta), Some((0, None)));
    let d = DecisionLogin::PasswordIncorrecta { intentos: 4, bloquear_hasta: None };
    assert_eq!(estado_tras_login(&c, d), Some((4, Some(100))));
    let d = DecisionLogin::PasswordIncorrecta { intentos: 5, bloquear_hasta: Some(900) };
    assert_eq!(estado_tras_login(&c, d), Some((5, Some(900))));
    assert_eq!(estado_tras_login(&c, DecisionLogin::Bloqueada), None);
    assert_eq!(estado_tras_login(&c, DecisionLogin::Inactiva), None);
    assert_eq!(estado_tras_login(&c, DecisionLogin::EmailDesconocido), None);
}
