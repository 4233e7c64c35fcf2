use backend::errores::AppError;
use backend::inversiones::validar_rendimiento;
use backend::decimal::Monto;
use backend::peticiones::{
    AsignarMiembroDatos, CrearCategoriaDatos, CrearEtiquetaDatos, CrearWorkspaceDatos,
    FiltroAlertasTarjeta, FiltroProximosCobros, FiltroProyeccion, PaginacionAuditoria,
    PaginacionMovimientos,
};
use backend::sesion::preparar_invitacion;
use backend::tokens::hash_token;

fn respuesta<T>(r: Result<T, AppError>) -> (u16, String) {
    match r {
        Ok(_) => (200, String::new()),
        Err(e) => (e.codigo_http(), e.mensaje_para_cliente()),
    }
}

#[test]
fn categoria_nueva() {
    let ok = CrearCategoriaDatos { name: "  Comida ".to_string(), tipo: "expense".to_string() };
    assert_eq!(ok.validar().unwrap(), "Comida");
    let tipo_malo = CrearCategoriaDatos { name: "   ".to_string(), tipo: "gasto".to_string() };
    assert_eq!(
        respuesta(tipo_malo.validar()),
        (422, "El tipo debe ser 'income' o 'expense'".to_string())
    );
    let sin_nombre = CrearCategoriaDatos { name: " ".to_string(), tipo: "income".to_string() };
    assert_eq!(
        respuesta(sin_nombre.validar()),
        (422, "El nombre no puede estar vacío".to_string())
    );
}

#[test]
fn nombres_de_etiqueta_y_workspace() {
    assert_eq!(CrearEtiquetaDatos { name: " viaje ".to_string() }.nombre().unwrap(), "viaje");
    assert_eq!(
        respuesta(CrearWorkspaceDatos { name: "\t".to_string() }.nombre()),
        (422, "El nombre no puede estar vacío".to_string())
    );
    assert_eq!(CrearWorkspaceDatos { name: "Familia".to_string() }.nombre().unwrap(), "Familia");
}

#[test]
fn asignar_miembro() {
    let ok = AsignarMiembroDatos { email: "a@b.mx".to_string(), role: "member".to_string() };
    assert!(ok.validar().is_ok());
    let malo = AsignarMiembroDatos { email: "a@b.mx".to_string(), role: "owner".to_string() };
    assert_eq!(
        respuesta(malo.validar()),
        (422, "El rol debe ser 'admin' o 'member'".to_string())
    );
}

#[test]
fn paginacion_por_defecto_y_acotada() {
    let p = PaginacionAuditoria { limite: None, desplazamiento: None };
    assert_eq!(p.resolver(), (50, 0));
    let p = PaginacionAuditoria { limite: Some(500), desplazamiento: Some(-3) };
    assert_eq!(p.resolver(), (200, 0));
    let p = PaginacionMovimientos { limite: Some(0), desplazamiento: Some(40) };
    assert_eq!(p.resolver(), (1, 40));
}

#[test]
fn ventanas_de_dias() {
    assert_eq!(FiltroProximosCobros { dias: None }.ventana(), 30);
    assert_eq!(FiltroProximosCobros { dias: Some(1000) }.ventana(), 365);
    assert_eq!(FiltroProximosCobros { dias: Some(-4) }.ventana(), 1);
    assert_eq!(FiltroAlertasTarjeta { dias: None }.ventana(), 7);
    assert_eq!(FiltroAlertasTarjeta { dias: Some(120) }.ventana(), 90);
}

#[test]
fn periodo_de_proyeccion() {
    assert_eq!(FiltroProyeccion { periodo: None }.periodo().unwrap(), "monthly");
    assert_eq!(FiltroProyeccion { periodo: Some("weekly".to_string()) }.periodo().unwrap(), "weekly");
    assert_eq!(
        respuesta(FiltroProyeccion { periodo: Some("daily".to_string()) }.periodo()),
        (422, "El período debe ser 'weekly' o 'monthly'".to_string())
    );
}

#[test]
fn rendimiento_manual() {
    assert!(validar_rendimiento(Monto::nuevo(1, 2)).is_ok());
    assert_eq!(
        respuesta(validar_rendimiento(Monto::desde_entero(0))),
        (422, "El rendimiento debe ser mayor a cero".to_string())
    );
}

#[test]
fn invitacion_guarda_solo_el_hash() {
    let i = preparar_invitacion("  Luis@Mail.MX ", 1_000).unwrap();
    assert_eq!(i.email, "luis@mail.mx");
    assert_eq!(i.token.len(), 64);
    assert_eq!(i.token_hash, hash_token(&i.token));
    assert_ne!(i.token_hash, i.token);
    assert_eq!(i.expira, 1_000 + 72 * 3_600_000_000);
    assert_eq!(respuesta(preparar_invitacion("x", 0)), (422, "Email inválido".to_string()));
}
