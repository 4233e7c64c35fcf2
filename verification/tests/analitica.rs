use backend::analitica::{
    armar_pastel, date_trunc_pg, etiqueta_dia, etiqueta_mes, etiqueta_punto, etiqueta_semana,
    flujo_neto, parsear_vista, porcentaje, puntos_tendencia, rango_y_grilla, tasa_ahorro,
    FilaPastel, FilaTendencia, Vista,
};
use backend::decimal::Monto;
use backend::fecha::Fecha;
use rust_decimal::Decimal;

fn f(anio: i32, mes: u32, dia: u32) -> Fecha {
    Fecha::nueva(anio, mes, dia).unwrap()
}

fn dec(m: Monto) -> Decimal {
    Decimal::from_i128_with_scale(m.mantisa, m.escala)
}

fn monto(n: i64) -> Monto {
    Monto::desde_entero(n)
}

#[test]
fn vista_de_la_tendencia() {
    assert_eq!(parsear_vista(Some("semana")), Vista::Semana);
    assert_eq!(parsear_vista(Some("año")), Vista::Anio);
    assert_eq!(parsear_vista(Some("anio")), Vista::Anio);
    assert_eq!(parsear_vista(Some("mes")), Vista::Mes);
    assert_eq!(parsear_vista(Some("trimestre")), Vista::Mes);
    assert_eq!(parsear_vista(None), Vista::Mes);
    assert_eq!(date_trunc_pg(Vista::Semana), "day");
    assert_eq!(date_trunc_pg(Vista::Mes), "week");
    assert_eq!(date_trunc_pg(Vista::Anio), "month");
}

#[test]
fn grilla_de_la_semana() {
    let (inicio, fin, grilla) = rango_y_grilla(Vista::Semana, f(2026, 7, 15));
    assert_eq!(inicio, f(2026, 7, 13));
    assert_eq!(fin, f(2026, 7, 19));
    assert_eq!(grilla.len(), 7);
    assert_eq!(grilla[0], f(2026, 7, 13));
    assert_eq!(grilla[6], f(2026, 7, 19));
}

#[test]
fn grilla_del_mes_por_semanas() {
    let (inicio, fin, grilla) = rango_y_grilla(Vista::Mes, f(2026, 7, 15));
    assert_eq!(inicio, f(2026, 7, 1));
    assert_eq!(fin, f(2026, 7, 31));
    assert_eq!(
        grilla,
        vec![f(2026, 6, 29), f(2026, 7, 6), f(2026, 7, 13), f(2026, 7, 20), f(2026, 7, 27)]
    );
    // Febrero de 2021 empieza en lunes y tiene 28 días: cuatro semanas justas.
    let (_, fin, grilla) = rango_y_grilla(Vista::Mes, f(2021, 2, 10));
    assert_eq!(fin, f(2021, 2, 28));
    assert_eq!(grilla.len(), 4);
}

#[test]
fn grilla_del_anio_por_meses() {
    let (inicio, fin, grilla) = rango_y_grilla(Vista::Anio, f(2026, 7, 15));
    assert_eq!(inicio, f(2025, 8, 1));
    assert_eq!(fin, f(2026, 7, 31));
    assert_eq!(grilla.len(), 12);
    assert_eq!(grilla[0], f(2025, 8, 1));
    assert_eq!(grilla[5], f(2026, 1, 1));
    assert_eq!(grilla[11], f(2026, 7, 1));
}

#[test]
fn etiquetas_del_eje() {
    assert_eq!(etiqueta_mes(f(2026, 1, 1)), "ene 2026");
    assert_eq!(etiqueta_mes(f(2025, 12, 1)), "dic 2025");
    assert_eq!(etiqueta_dia(f(2026, 7, 15)), "mié 15");
    assert_eq!(etiqueta_dia(f(2026, 7, 19)), "dom 19");
    assert_eq!(etiqueta_semana(f(2026, 7, 6)), "06/07");
    assert_eq!(etiqueta_semana(f(2026, 12, 28)), "28/12");
    assert_eq!(etiqueta_punto(f(2026, 7, 13), Vista::Semana), "lun 13");
    assert_eq!(etiqueta_punto(f(2026, 7, 13), Vista::Mes), "13/07");
    assert_eq!(etiqueta_punto(f(2026, 7, 13), Vista::Anio), "jul 2026");
}

#[test]
fn porcentajes_y_tasas() {
    assert_eq!(dec(porcentaje(monto(50), monto(200)).unwrap()), Decimal::from(25));
    assert_eq!(dec(porcentaje(monto(50), monto(0)).unwrap()), Decimal::ZERO);
    assert_eq!(dec(tasa_ahorro(monto(25), monto(100)).unwrap()), Decimal::from(25));
    assert_eq!(dec(tasa_ahorro(monto(25), monto(0)).unwrap()), Decimal::ZERO);
    assert_eq!(dec(flujo_neto(monto(300), monto(450)).unwrap()), Decimal::from(-150));
    let tercio = porcentaje(monto(1), monto(3)).unwrap();
    assert_eq!(dec(tercio), (Decimal::ONE / Decimal::from(3)) * Decimal::ONE_HUNDRED);
}

#[test]
fn desborde_en_porcentaje_es_error_interno() {
    let enorme = Monto { mantisa: 79228162514264337593543950335, escala: 0 };
    let diminuto = Monto { mantisa: 1, escala: 28 };
    match porcentaje(enorme, diminuto) {
        Err(e) => assert_eq!(e.codigo_http(), 500),
        Ok(_) => panic!("debía desbordar"),
    }
}

#[test]
fn tendencia_rellena_periodos_sin_movimientos() {
    let grilla = vec![f(2026, 7, 13), f(2026, 7, 14), f(2026, 7, 15)];
    let filas = vec![FilaTendencia { periodo: f(2026, 7, 14), income: monto(100), expense: monto(30) }];
    let puntos = puntos_tendencia(&grilla, &filas, Vista::Semana).unwrap();
    assert_eq!(puntos.len(), 3);
    assert_eq!(puntos[0].etiqueta, "lun 13");
    assert_eq!(dec(puntos[0].income), Decimal::ZERO);
    assert_eq!(dec(puntos[0].net), Decimal::ZERO);
    assert_eq!(puntos[1].etiqueta, "mar 14");
    assert_eq!(dec(puntos[1].income), Decimal::from(100));
    assert_eq!(dec(puntos[1].expense), Decimal::from(30));
    assert_eq!(dec(puntos[1].net), Decimal::from(70));
    assert_eq!(dec(puntos[2].expense), Decimal::ZERO);
}

fn fila(tipo: &str, cat: Option<u128>, nombre: &str, n: i64) -> FilaPastel {
    FilaPastel {
        tipo: tipo.to_string(),
        category_id: cat,
        category_name: nombre.to_string(),
        amount: monto(n),
    }
}

#[test]
fn pastel_con_porcentajes_por_tipo() {
    let filas = vec![
        fila("income", Some(1), "Sueldo", 300),
        fila("expense", None, "Sin categoría", 50),
        fila("income", Some(2), "Ventas", 100),
    ];
    let datos = armar_pastel(&filas).unwrap();
    assert_eq!(datos.ingresos.len(), 2);
    assert_eq!(datos.ingresos[0].category_name, "Sueldo");
    assert_eq!(dec(datos.ingresos[0].percentage), Decimal::from(75));
    assert_eq!(datos.ingresos[1].category_id, Some(2));
    assert_eq!(dec(datos.ingresos[1].percentage), Decimal::from(25));
    assert_eq!(datos.gastos.len(), 1);
    assert_eq!(datos.gastos[0].category_id, None);
    assert_eq!(dec(datos.gastos[0].percentage), Decimal::from(100));
}

#[test]
fn pastel_vacio() {
    let datos = armar_pastel(&vec![]).unwrap();
    assert!(datos.ingresos.is_empty());
    assert!(datos.gastos.is_empty());
}
