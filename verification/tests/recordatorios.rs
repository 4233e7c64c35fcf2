use backend::decimal::Monto;
use backend::fecha::Fecha;
use backend::recordatorios::{
    avisos_tarjeta, notificacion_presupuesto, notificacion_suscripcion, suscripcion_por_avisar,
    umbral_presupuesto, UmbralPresupuesto,
};

fn f(anio: i32, mes: u32, dia: u32) -> Fecha {
    Fecha::nueva(anio, mes, dia).unwrap()
}

#[test]
fn ventana_de_aviso_de_suscripciones() {
    let hoy = f(2026, 7, 15);
    assert!(suscripcion_por_avisar(hoy, f(2026, 7, 18)));
    assert!(suscripcion_por_avisar(hoy, f(2026, 7, 1)));
    assert!(!suscripcion_por_avisar(hoy, f(2026, 7, 19)));
}

#[test]
fn texto_del_aviso_de_suscripcion() {
    let n = notificacion_suscripcion(5, "Netflix", Monto::nuevo(1999, 1), f(2026, 7, 20));
    assert_eq!(n.tipo, "subscription_due");
    assert_eq!(n.title, "Próximo a vencer: Netflix");
    assert_eq!(n.body, "Se cobrará 199.90 el 2026-07-20.");
    assert_eq!(n.reference_id, 5);
}

#[test]
fn montos_con_decimales_fijos_truncan() {
    let cobro = |m: Monto| notificacion_suscripcion(1, "x", m, f(2026, 7, 18)).body;
    assert_eq!(cobro(Monto::nuevo(12345, 3)), "Se cobrará 12.34 el 2026-07-18.");
    assert_eq!(cobro(Monto::nuevo(-5, 3)), "Se cobrará -0.00 el 2026-07-18.");
    assert_eq!(cobro(Monto::nuevo(7, 0)), "Se cobrará 7.00 el 2026-07-18.");
    let limite = Monto::desde_entero(100);
    let aviso = notificacion_presupuesto(2, "Comida", Monto::nuevo(899, 1), limite).unwrap().unwrap();
    assert_eq!(aviso.body, "Comida: llevas 89.90 de 100.00 (89%).");
    let aviso = notificacion_presupuesto(2, "Comida", Monto::nuevo(1005, 1), limite).unwrap().unwrap();
    assert_eq!(aviso.body, "Comida: llevas 100.50 de 100.00 (100%).");
}

#[test]
fn umbrales_de_presupuesto() {
    let limite = Monto::desde_entero(100);
    assert_eq!(umbral_presupuesto(Monto::desde_entero(80), limite).unwrap().1, Some(UmbralPresupuesto::Ochenta));
    assert_eq!(umbral_presupuesto(Monto::desde_entero(100), limite).unwrap().1, Some(UmbralPresupuesto::Cien));
    assert_eq!(umbral_presupuesto(Monto::desde_entero(150), limite).unwrap().1, Some(UmbralPresupuesto::Cien));
    assert_eq!(umbral_presupuesto(Monto::nuevo(7999, 2), limite).unwrap().1, None);
}

#[test]
fn texto_del_aviso_de_presupuesto() {
    let n = notificacion_presupuesto(9, "Comida", Monto::desde_entero(80), Monto::desde_entero(100))
        .unwrap()
        .unwrap();
    assert_eq!(n.tipo, "budget_80");
    assert_eq!(n.title, "Presupuesto en 80%: Comida");
    assert_eq!(n.body, "Comida: llevas 80.00 de 100.00 (80%).");
    let m = notificacion_presupuesto(9, "Casa", Monto::nuevo(12050, 2), Monto::desde_entero(100))
        .unwrap()
        .unwrap();
    assert_eq!(m.tipo, "budget_100");
    assert_eq!(m.title, "Presupuesto alcanzado: Casa");
    assert_eq!(m.body, "Casa: llevas 120.50 de 100.00 (120%).");
    assert!(notificacion_presupuesto(9, "Ocio", Monto::desde_entero(10), Monto::desde_entero(100))
        .unwrap()
        .is_none());
}

#[test]
fn avisos_de_tarjeta() {
    let hoy = f(2026, 7, 15);
    let (corte, pago) = avisos_tarjeta(hoy, 3, "Oro", 17, 25);
    let corte = corte.unwrap();
    assert_eq!(corte.tipo, "credit_card_cutoff");
    assert_eq!(corte.title, "Fecha de corte próxima: Oro");
    assert_eq!(corte.body, "Tu tarjeta Oro corta el 2026-07-17.");
    assert!(pago.is_none());
    let (corte, pago) = avisos_tarjeta(hoy, 3, "Oro", 1, 15);
    assert!(corte.is_none());
    let pago = pago.unwrap();
    assert_eq!(pago.tipo, "credit_card_due");
    assert_eq!(pago.body, "El pago límite de Oro es el 2026-07-15.");
}
