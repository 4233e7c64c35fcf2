use backend::fecha::{
    dias_entre, lunes_de_semana, proxima_ocurrencia_dia_mes, sumar_dias, sumar_meses,
    ultimo_dia_del_mes, Fecha,
};
use backend::decimal::Monto;
use backend::recordatorios::notificacion_suscripcion;

fn f(anio: i32, mes: u32, dia: u32) -> Fecha {
    Fecha::nueva(anio, mes, dia).unwrap()
}

#[test]
fn dia_31_en_febrero_usa_el_ultimo_dia_real() {
    let hoy = Fecha::nueva(2026, 2, 1).unwrap();
    assert_eq!(
        proxima_ocurrencia_dia_mes(hoy, 31),
        Fecha::nueva(2026, 2, 28).unwrap()
    );
}

#[test]
fn dia_31_en_febrero_bisiesto() {
    let hoy = Fecha::nueva(2028, 2, 1).unwrap();
    assert_eq!(
        proxima_ocurrencia_dia_mes(hoy, 31),
        Fecha::nueva(2028, 2, 29).unwrap()
    );
}

#[test]
fn hoy_cae_justo_en_el_dia_devuelve_hoy() {
    let hoy = Fecha::nueva(2026, 7, 15).unwrap();
    assert_eq!(proxima_ocurrencia_dia_mes(hoy, 15), hoy);
}

#[test]
fn rollover_normal_de_mes() {
    let hoy = Fecha::nueva(2026, 7, 20).unwrap();
    assert_eq!(
        proxima_ocurrencia_dia_mes(hoy, 5),
        Fecha::nueva(2026, 8, 5).unwrap()
    );
}

#[test]
fn proxima_ocurrencia_cruza_de_anio() {
    assert_eq!(proxima_ocurrencia_dia_mes(f(2026, 12, 20), 10), f(2027, 1, 10));
    assert_eq!(proxima_ocurrencia_dia_mes(f(2026, 1, 31), 30), f(2026, 2, 28));
}

#[test]
fn fecha_inexistente_es_none() {
    assert!(Fecha::nueva(2026, 2, 29).is_none());
    assert!(Fecha::nueva(2026, 13, 1).is_none());
    assert!(Fecha::nueva(2026, 4, 31).is_none());
    assert!(Fecha::nueva(2024, 2, 29).is_some());
}

#[test]
fn ultimo_dia_de_cada_tipo_de_mes() {
    assert_eq!(ultimo_dia_del_mes(2024, 2), 29);
    assert_eq!(ultimo_dia_del_mes(2023, 2), 28);
    assert_eq!(ultimo_dia_del_mes(2100, 2), 28);
    assert_eq!(ultimo_dia_del_mes(2000, 2), 29);
    assert_eq!(ultimo_dia_del_mes(2026, 4), 30);
    assert_eq!(ultimo_dia_del_mes(2026, 12), 31);
    assert_eq!(ultimo_dia_del_mes(2026, 0), 31);
}

#[test]
fn sumar_meses_devuelve_el_primero_del_mes() {
    assert_eq!(sumar_meses(f(2026, 11, 17), 3), f(2027, 2, 1));
    assert_eq!(sumar_meses(f(2026, 7, 15), -11), f(2025, 8, 1));
    assert_eq!(sumar_meses(f(2026, 1, 31), 0), f(2026, 1, 1));
}

#[test]
fn sumar_meses_compone() {
    let base = f(2026, 5, 9);
    assert_eq!(sumar_meses(sumar_meses(base, 7), 8), sumar_meses(base, 15));
    assert_eq!(sumar_meses(sumar_meses(base, -13), 4), sumar_meses(base, -9));
}

#[test]
fn sumar_dias_y_dias_entre() {
    assert_eq!(sumar_dias(f(2026, 2, 27), 2), Some(f(2026, 3, 1)));
    assert_eq!(sumar_dias(f(2028, 2, 27), 2), Some(f(2028, 2, 29)));
    assert_eq!(sumar_dias(f(2026, 1, 1), -1), Some(f(2025, 12, 31)));
    assert_eq!(dias_entre(f(2026, 1, 1), f(2027, 1, 1)), 365);
    assert_eq!(dias_entre(f(2028, 1, 1), f(2029, 1, 1)), 366);
    assert_eq!(sumar_dias(f(262142, 12, 31), 1), None);
}

#[test]
fn lunes_de_la_semana() {
    // 2026-07-15 es miércoles.
    assert_eq!(lunes_de_semana(f(2026, 7, 15)), Some(f(2026, 7, 13)));
    assert_eq!(lunes_de_semana(f(2026, 7, 13)), Some(f(2026, 7, 13)));
    assert_eq!(lunes_de_semana(f(2026, 7, 19)), Some(f(2026, 7, 13)));
}

#[test]
fn fecha_en_formato_iso() {
    let texto_fecha = |d: Fecha| notificacion_suscripcion(1, "x", Monto::desde_entero(1), d).body;
    assert_eq!(texto_fecha(f(2026, 3, 5)), "Se cobrará 1.00 el 2026-03-05.");
    assert_eq!(texto_fecha(f(987, 12, 31)), "Se cobrará 1.00 el 0987-12-31.");
    assert_eq!(texto_fecha(f(12345, 6, 7)), "Se cobrará 1.00 el +12345-06-07.");
    assert_eq!(texto_fecha(f(-1, 1, 1)), "Se cobrará 1.00 el -0001-01-01.");
}
