use backend::contabilidad::{
    ajuste_balance, comprobar_categoria, meses_por_periodicidad, preparar_cobro,
    preparar_pago_previsto, siguiente_cobro, validar_movimiento, validar_periodicidad, Previsto,
};
use backend::cuentas::{
    ajustes_transferencia, comprobar_cuenta_propia, cuentas_esperadas, normalizar_credit_limit,
    normalizar_dias_facturacion, orden_de_bloqueo, validar_tipo as validar_tipo_cuenta,
    validar_transferencia,
};
use backend::decimal::Monto;
use backend::errores::AppError;
use backend::fecha::Fecha;
use backend::inversiones::{
    calcular_desglose, devengos_pendientes, fecha_vencimiento, isr_retenido, rendimiento_bruto,
    tasa_retencion_isr_anual, validar_datos_inversion, validar_plazo, validar_tipo_interes,
    DiaDevengo, InversionActiva,
};
use backend::metas::{aplicar_aporte, periodos_restantes, proyeccion, validar_aporte};
use rust_decimal::Decimal;
use rust_decimal::MathematicalOps;

fn f(anio: i32, mes: u32, dia: u32) -> Fecha {
    Fecha::nueva(anio, mes, dia).unwrap()
}

fn dec(m: Monto) -> Decimal {
    Decimal::from_i128_with_scale(m.mantisa, m.escala)
}

fn monto(n: i64) -> Monto {
    Monto::desde_entero(n)
}

fn respuesta<T>(r: Result<T, AppError>) -> (u16, String) {
    match r {
        Ok(_) => (200, String::new()),
        Err(e) => (e.codigo_http(), e.mensaje_para_cliente()),
    }
}

#[test]
fn validaciones_de_inversion() {
    assert!(validar_tipo_interes("simple").is_ok());
    assert!(validar_tipo_interes("compound").is_ok());
    assert_eq!(
        respuesta(validar_tipo_interes("mixto")),
        (422, "El tipo de interés debe ser 'simple' o 'compound'".to_string())
    );
    assert_eq!(
        respuesta(validar_plazo(0)),
        (422, "El plazo en días debe ser mayor a cero".to_string())
    );
    assert_eq!(
        respuesta(validar_datos_inversion("simple", monto(0), monto(10), monto(0), 30)),
        (422, "El capital debe ser mayor a cero".to_string())
    );
    assert_eq!(
        respuesta(validar_datos_inversion("simple", monto(10), monto(0), monto(0), 30)),
        (422, "La tasa GAT anual debe ser mayor a cero".to_string())
    );
    assert_eq!(
        respuesta(validar_datos_inversion("simple", monto(10), monto(5), monto(-1), 30)),
        (422, "La tasa de ISR no puede ser negativa".to_string())
    );
    assert!(validar_datos_inversion("compound", monto(10), monto(5), monto(0), 30).is_ok());
    assert_eq!(dec(tasa_retencion_isr_anual()), Decimal::new(50, 2));
}

#[test]
fn desglose_de_interes_simple() {
    let d = calcular_desglose(monto(10000), monto(10), "simple", 365, Monto::nuevo(50, 2)).unwrap();
    assert_eq!(dec(d.gross_yield), Decimal::from(1000));
    assert_eq!(dec(d.isr_amount), Decimal::from(50));
    assert_eq!(dec(d.net_yield), Decimal::from(950));
    assert_eq!(dec(d.maturity_amount), Decimal::from(10950));
    assert_eq!(d.interest_type, "simple");
    assert_eq!(d.term_days, 365);
}

#[test]
fn interes_compuesto_supera_al_simple() {
    let simple = rendimiento_bruto(monto(10000), monto(10), 365, "simple").unwrap();
    let compuesto = rendimiento_bruto(monto(10000), monto(10), 365, "compound").unwrap();
    assert!(dec(compuesto) > dec(simple));
    let esperado = Decimal::from(10000)
        * (Decimal::ONE + Decimal::from(10) / Decimal::ONE_HUNDRED / Decimal::from(365))
            .powi(365)
        - Decimal::from(10000);
    assert_eq!(dec(compuesto), esperado);
}

#[test]
fn plazo_enorme_en_compuesto_es_422() {
    assert_eq!(
        respuesta(rendimiento_bruto(monto(10000), monto(500), 2_000_000_000, "compound")),
        (422, "El plazo o la tasa son demasiado grandes para calcular el interés compuesto".to_string())
    );
}

#[test]
fn vencimiento_de_inversion() {
    assert_eq!(fecha_vencimiento(f(2026, 1, 1), 31).unwrap(), f(2026, 2, 1));
    assert_eq!(
        respuesta(fecha_vencimiento(f(2026, 1, 1), -1)),
        (422, "El plazo produce una fecha inválida".to_string())
    );
}

#[test]
fn movimientos_y_saldos() {
    assert_eq!(dec(ajuste_balance("income", monto(40))), Decimal::from(40));
    assert_eq!(dec(ajuste_balance("expense", monto(40))), Decimal::from(-40));
    assert!(validar_movimiento("income", monto(1)).is_ok());
    assert_eq!(
        respuesta(validar_movimiento("otro", monto(0))),
        (422, "El tipo debe ser 'income' o 'expense'".to_string())
    );
    assert_eq!(
        respuesta(validar_movimiento("expense", monto(0))),
        (422, "El monto debe ser mayor a cero".to_string())
    );
    // Crear y eliminar se cancelan.
    let a = ajuste_balance("expense", Monto::nuevo(1234, 2));
    assert_eq!(dec(a) + (-dec(a)), Decimal::ZERO);
}

#[test]
fn categorias_y_periodicidades() {
    assert!(comprobar_categoria(Some("expense"), "expense").is_ok());
    assert_eq!(
        respuesta(comprobar_categoria(None, "expense")),
        (404, "Categoría no encontrada".to_string())
    );
    assert_eq!(
        respuesta(comprobar_categoria(Some("income"), "expense")),
        (422, "La categoría es de tipo 'income', se esperaba 'expense'".to_string())
    );
    assert!(validar_periodicidad("monthly").is_ok());
    assert!(validar_periodicidad("diaria").is_err());
    assert_eq!(meses_por_periodicidad("monthly"), 1);
    assert_eq!(meses_por_periodicidad("annual"), 12);
    assert_eq!(siguiente_cobro(f(2026, 1, 31), "monthly").unwrap(), f(2026, 2, 28));
}

#[test]
fn cobro_de_suscripcion() {
    let c = preparar_cobro(1, 1, "monthly", f(2026, 3, 31), monto(99), Some(7)).unwrap();
    assert_eq!(c.siguiente, f(2026, 4, 30));
    let (cuenta, ajuste, fecha) = c.movimiento.unwrap();
    assert_eq!(cuenta, 7);
    assert_eq!(dec(ajuste), Decimal::from(-99));
    assert_eq!(fecha, f(2026, 3, 31));
    assert_eq!(
        respuesta(preparar_cobro(1, 2, "monthly", f(2026, 3, 31), monto(99), None)),
        (403, "Solo el dueño de la suscripción puede marcarla cobrada".to_string())
    );
}

#[test]
fn pago_de_previsto() {
    let p = Previsto {
        id: 1,
        tipo: "income".to_string(),
        amount: monto(500),
        due_date: f(2026, 8, 1),
        category_id: None,
        account_id: Some(3),
        description: None,
        is_paid: false,
        created_by: 10,
    };
    let (cuenta, ajuste) = preparar_pago_previsto(&p, 10).unwrap().unwrap();
    assert_eq!(cuenta, 3);
    assert_eq!(dec(ajuste), Decimal::from(500));
    assert_eq!(
        respuesta(preparar_pago_previsto(&p, 11)),
        (403, "Solo quien registró el previsto puede marcarlo pagado".to_string())
    );
}

#[test]
fn cuentas_y_transferencias() {
    assert!(validar_tipo_cuenta("savings").is_ok());
    assert_eq!(
        respuesta(validar_tipo_cuenta("bitcoin")),
        (422, "El tipo debe ser una de: cash, debit, credit, savings".to_string())
    );
    assert!(normalizar_credit_limit("debit", Some(monto(5))).unwrap().is_none());
    assert_eq!(dec(normalizar_credit_limit("credit", Some(monto(5))).unwrap().unwrap()), Decimal::from(5));
    assert_eq!(
        respuesta(normalizar_credit_limit("credit", None)),
        (422, "Las tarjetas de crédito requieren un límite mayor a cero".to_string())
    );
    assert_eq!(normalizar_dias_facturacion("cash", Some(3), None).unwrap(), (None, None));
    assert_eq!(normalizar_dias_facturacion("credit", Some(3), Some(28)).unwrap(), (Some(3), Some(28)));
    assert_eq!(
        respuesta(normalizar_dias_facturacion("credit", Some(0), Some(28))),
        (422, "Las tarjetas de crédito requieren día de corte y día límite de pago entre 1 y 31".to_string())
    );
    assert_eq!(
        respuesta(validar_transferencia(1, 1, monto(5))),
        (422, "La cuenta de origen y destino no pueden ser la misma".to_string())
    );
    assert!(validar_transferencia(1, 2, monto(5)).is_ok());
    assert_eq!(orden_de_bloqueo(9, 4), (4, 9));
    assert_eq!(cuentas_esperadas(4, 4), 1);
    let (sale, entra) = ajustes_transferencia(monto(70));
    assert_eq!(dec(sale) + dec(entra), Decimal::ZERO);
}

#[test]
fn aportes_a_metas() {
    assert_eq!(validar_aporte(monto(10), None).unwrap(), "income");
    assert_eq!(
        respuesta(validar_aporte(monto(0), None)),
        (422, "El monto debe ser mayor a cero".to_string())
    );
    let e = aplicar_aporte(monto(1000), monto(900), monto(100), "income").unwrap();
    assert_eq!(dec(e.nuevo_monto), Decimal::from(1000));
    assert!(e.completada);
    assert_eq!(dec(e.ajuste_cuenta), Decimal::from(-100));
    let r = aplicar_aporte(monto(1000), monto(50), monto(100), "expense");
    assert_eq!(
        respuesta(r),
        (422, "El retiro supera los fondos acumulados en la meta".to_string())
    );
}

#[test]
fn proyeccion_de_meta() {
    assert_eq!(periodos_restantes(f(2026, 1, 1), f(2026, 1, 15), "weekly").unwrap(), 2);
    assert_eq!(periodos_restantes(f(2026, 1, 1), f(2026, 3, 2), "monthly").unwrap(), 2);
    let p = proyeccion(monto(1000), monto(400), f(2026, 1, 1), f(2026, 3, 2), "monthly").unwrap();
    assert_eq!(p.periodo, "monthly");
    assert_eq!(p.periodos_restantes, 2);
    assert_eq!(dec(p.aporte_necesario), Decimal::from(300));
}

#[test]
fn devengos_diarios_suman_lo_acumulado() {
    for tipo in ["simple", "compound"] {
        let inv = InversionActiva {
            principal: monto(36500),
            gat_annual_rate: monto(10),
            isr_annual_rate: monto(1),
            interest_type: tipo.to_string(),
            start_date: Fecha::nueva(2026, 1, 1).unwrap(),
            end_date: Fecha::nueva(2026, 1, 31).unwrap(),
        };
        let hoy = Fecha::nueva(2026, 1, 10).unwrap();
        let dias = devengos_pendientes(&inv, None, hoy);
        assert_eq!(dias.len(), 10);
        let mut bruto = Decimal::ZERO;
        let mut isr = Decimal::ZERO;
        for d in &dias {
            match d {
                DiaDevengo::Calculado(x) => {
                    bruto += dec(x.gross_yield);
                    isr += dec(x.isr_amount);
                    assert_eq!(dec(x.net_yield), dec(x.gross_yield) - dec(x.isr_amount));
                }
                DiaDevengo::Omitido(_) => panic!("ningún día debe omitirse"),
            }
        }
        let esperado = dec(rendimiento_bruto(inv.principal, inv.gat_annual_rate, 10, tipo).unwrap());
        assert!((bruto - esperado).abs() < Decimal::new(1, 20));
        assert_eq!(isr, dec(isr_retenido(inv.principal, 10, inv.isr_annual_rate).unwrap()));
        if tipo == "simple" {
            assert_eq!(bruto, Decimal::from(100));
            assert_eq!(isr, Decimal::from(10));
        }
        // Ya al día: una segunda pasada no devenga nada.
        let ultima = Fecha::nueva(2026, 1, 10).unwrap();
        assert!(devengos_pendientes(&inv, Some(ultima), hoy).is_empty());
    }
}

#[test]
fn cuenta_propia_y_escala_de_los_ajustes() {
    assert!(comprobar_cuenta_propia(Some(7), 7).is_ok());
    assert_eq!(respuesta(comprobar_cuenta_propia(Some(8), 7)), (404, "Cuenta no encontrada".to_string()));
    assert_eq!(respuesta(comprobar_cuenta_propia(None, 7)), (404, "Cuenta no encontrada".to_string()));
    let amount = Monto::nuevo(1050, 2);
    let (origen, destino) = ajustes_transferencia(amount);
    assert_eq!((origen.mantisa, origen.escala), (-1050, 2));
    assert_eq!((destino.mantisa, destino.escala), (1050, 2));
    let efecto = aplicar_aporte(monto(100), monto(0), amount, "income").unwrap();
    assert_eq!((efecto.ajuste_cuenta.mantisa, efecto.ajuste_cuenta.escala), (-1050, 2));
}
