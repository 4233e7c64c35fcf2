//! Decisiones del ciclo de recordatorios: qué avisos generar para las
//! suscripciones por cobrarse, los presupuestos al 80% o al 100% y las
//! fechas de corte y de pago de las tarjetas de crédito, con sus textos.
//! Consultar la base, deduplicar contra los avisos ya guardados y enviar
//! correos queda fuera.
use vstd::prelude::*;
use crate::decimal::{
    Monto, entero, dec_producto, dec_cociente, op_cociente, multiplicar, dividir, menor_que,
    texto_monto, monto_con_decimales, producto_es_exacto, cociente_es_exacto, pot10, ESCALA_MAX,
    lema_por_ciento_exacto, lema_umbral_por_ciento,
};
use crate::errores::{AppError, error_aritmetico, no_encontrado};
use crate::fecha::{
    Fecha, ordinal, proxima_ocurrencia, proxima_ocurrencia_definida, proxima_ocurrencia_dia_mes,
    fecha_iso, texto_fecha, ordinal_de,
};

verus! {

/// Días de anticipación para avisar de un cobro próximo.
pub const DIAS_AVISO_SUSCRIPCION: i64 = 3;
/// Días de anticipación para avisar de una fecha de corte o de pago
/// límite próxima.
pub const DIAS_AVISO_TARJETA: i64 = 3;

/// Una notificación por crear (tipo, título, cuerpo y el recurso que la
/// originó).
pub struct NuevaNotificacion {
    pub tipo: String,
    pub title: String,
    pub body: String,
    pub reference_id: u128,
}

/// Se avisa de un cobro de suscripción cuando cae a lo sumo
/// `DIAS_AVISO_SUSCRIPCION` días después de `hoy`.
pub fn suscripcion_por_avisar(hoy: Fecha, next_billing_date: Fecha) -> (r: bool)
    requires
        hoy.wf(),
        next_billing_date.wf(),
    ensures
        r == (ordinal(next_billing_date) <= ordinal(hoy) + DIAS_AVISO_SUSCRIPCION),
{
    let h: i64 = ordinal_de(hoy) as i64;
    let c: i64 = ordinal_de(next_billing_date) as i64;
    c <= h + DIAS_AVISO_SUSCRIPCION
}

/// Aviso de una suscripción por cobrarse: "Próximo a vencer: {nombre}" /
/// "Se cobrará {monto con 2 decimales} el {fecha}.".
pub fn notificacion_suscripcion(id: u128, nombre: &str, monto: Monto, next_billing_date: Fecha) -> (r:
    NuevaNotificacion)
    requires
        monto.wf(),
        next_billing_date.wf(),
    ensures
        r.tipo@ == "subscription_due"@,
        r.title@ == "Próximo a vencer: "@ + nombre@,
        r.body@ == "Se cobrará "@ + monto_con_decimales(monto, 2) + " el "@ + fecha_iso(
            next_billing_date,
        ) + "."@,
        r.reference_id == id,
{
    let title = String::from_str("Próximo a vencer: ").concat(nombre);
    let body = String::from_str("Se cobrará ").concat(texto_monto(monto, 2).as_str()).concat(
        " el ",
    ).concat(texto_fecha(next_billing_date).as_str()).concat(".");
    NuevaNotificacion { tipo: String::from_str("subscription_due"), title, body, reference_id: id }
}

/// Umbral de alerta de un presupuesto.
#[derive(Debug, Clone, Copy, PartialEq, Eq, Structural)]
pub enum UmbralPresupuesto {
    /// Gastado el 80% o más (y menos del 100%).
    Ochenta,
    /// Gastado el 100% o más.
    Cien,
}

/// Porcentaje gastado de un presupuesto: `spent * 100 / limit`.
pub open spec fn porcentaje_gastado(spent: Monto, limit: Monto) -> Option<Monto> {
    op_cociente(dec_producto(spent, entero(100)), Some(limit))
}

/// El umbral que alcanza un porcentaje, si alcanza alguno.
pub open spec fn umbral_de(p: Monto) -> Option<UmbralPresupuesto> {
    if p@ >= entero(100)@ {
        Some(UmbralPresupuesto::Cien)
    } else if p@ >= entero(80)@ {
        Some(UmbralPresupuesto::Ochenta)
    } else {
        None
    }
}

/// El porcentaje gastado es lo gastado por cien entre el límite: con el
/// producto y la división exactos, el porcentaje por el límite da lo
/// gastado por cien. Con un límite positivo, la alerta del 100% salta
/// exactamente cuando lo gastado llega al límite, y no hay alerta
/// exactamente cuando lo gastado queda por debajo del 80% del límite.
pub proof fn ley_porcentaje_gastado(spent: Monto, limit: Monto)
    requires
        spent.wf(),
        limit.wf(),
        producto_es_exacto(spent, entero(100)),
        cociente_es_exacto(dec_producto(spent, entero(100))->0, limit),
    ensures
        porcentaje_gastado(spent, limit) matches Some(p) && p@ * limit@ == spent@ * 100 * pot10(
            ESCALA_MAX as nat,
        ),
        limit@ > 0 ==> {
            let u = umbral_de(porcentaje_gastado(spent, limit)->0);
            &&& (u == Some(UmbralPresupuesto::Cien)) == (spent@ >= limit@)
            &&& (u == Some(UmbralPresupuesto::Ochenta)) == (100 * spent@ >= 80 * limit@ && spent@ < limit@)
            &&& (u is None) == (100 * spent@ < 80 * limit@)
        },
{
    lema_por_ciento_exacto(spent, limit);
    let p = porcentaje_gastado(spent, limit)->0;
    if limit@ > 0 {
        crate::decimal::lema_entero(100);
        crate::decimal::lema_entero(80);
        lema_umbral_por_ciento(p@, spent@, limit@, 100);
        lema_umbral_por_ciento(p@, spent@, limit@, 80);
    }
}

/// Porcentaje gastado de un presupuesto y el umbral que alcanza (100%,
/// 80% o ninguno). Un desborde de `Decimal` es un error interno.
pub fn umbral_presupuesto(spent: Monto, limit: Monto) -> (r: Result<(Monto, Option<UmbralPresupuesto>), AppError>)
    requires
        spent.wf(),
        limit.wf(),
        limit.mantisa != 0,
    ensures
        porcentaje_gastado(spent, limit) matches Some(p) ==> r == Ok::<(Monto, Option<UmbralPresupuesto>), AppError>((p, umbral_de(p))),
        porcentaje_gastado(spent, limit) is None ==> r matches Err(AppError::Interno(_)),
        r matches Ok((p, _)) ==> p.wf(),
        (producto_es_exacto(spent, entero(100)) && cociente_es_exacto(
            dec_producto(spent, entero(100))->0,
            limit,
        )) ==> (r matches Ok((p, u)) && p@ * limit@ == spent@ * 100 * pot10(ESCALA_MAX as nat)
            && (limit@ > 0 ==> ((u == Some(UmbralPresupuesto::Cien)) == (spent@ >= limit@) && (u is None)
            == (100 * spent@ < 80 * limit@)))),
{
    proof {
        if producto_es_exacto(spent, entero(100)) && cociente_es_exacto(
            dec_producto(spent, entero(100))->0,
            limit,
        ) {
            ley_porcentaje_gastado(spent, limit);
        }
    }
    let cien = Monto::desde_entero(100);
    let ochenta = Monto::desde_entero(80);
    let p = match multiplicar(spent, cien) {
        Some(x) => match dividir(x, limit) {
            Some(y) => y,
            None => {
                return Err(error_aritmetico());
            },
        },
        None => {
            return Err(error_aritmetico());
        },
    };
    let umbral = if !menor_que(p, cien) {
        Some(UmbralPresupuesto::Cien)
    } else if !menor_que(p, ochenta) {
        Some(UmbralPresupuesto::Ochenta)
    } else {
        None
    };
    Ok((p, umbral))
}

/// Tipo y título de cada umbral.
pub open spec fn tipo_umbral(u: UmbralPresupuesto) -> Seq<char> {
    match u {
        UmbralPresupuesto::Cien => "budget_100"@,
        UmbralPresupuesto::Ochenta => "budget_80"@,
    }
}

pub open spec fn titulo_umbral(u: UmbralPresupuesto) -> Seq<char> {
    match u {
        UmbralPresupuesto::Cien => "Presupuesto alcanzado"@,
        UmbralPresupuesto::Ochenta => "Presupuesto en 80%"@,
    }
}

/// Aviso de un presupuesto del mes, si alcanzó un umbral:
/// "{título}: {categoría}" / "{categoría}: llevas {gastado} de {límite}
/// ({porcentaje}%)." (montos con 2 decimales, porcentaje sin decimales).
pub fn notificacion_presupuesto(id: u128, categoria: &str, spent: Monto, limit: Monto) -> (r: Result<
    Option<NuevaNotificacion>,
    AppError,
>)
    requires
        spent.wf(),
        limit.wf(),
        limit.mantisa != 0,
    ensures
        porcentaje_gastado(spent, limit) is None ==> r matches Err(AppError::Interno(_)),
        porcentaje_gastado(spent, limit) matches Some(p) ==> (r matches Ok(o) && match umbral_de(p) {
            None => o is None,
            Some(u) => o matches Some(n) && n.tipo@ == tipo_umbral(u) && n.title@ == titulo_umbral(u)
                + ": "@ + categoria@ && n.body@ == categoria@ + ": llevas "@ + monto_con_decimales(
                spent,
                2,
            ) + " de "@ + monto_con_decimales(limit, 2) + " ("@ + monto_con_decimales(p, 0)
                + "%)."@ && n.reference_id == id,
        }),
{
    let (p, umbral) = match umbral_presupuesto(spent, limit) {
        Ok(x) => x,
        Err(e) => {
            return Err(e);
        },
    };
    match umbral {
        None => Ok(None),
        Some(u) => {
            let (tipo, titulo) = match u {
                UmbralPresupuesto::Cien => ("budget_100", "Presupuesto alcanzado"),
                UmbralPresupuesto::Ochenta => ("budget_80", "Presupuesto en 80%"),
            };
            let title = String::from_str(titulo).concat(": ").concat(categoria);
            let body = String::from_str(categoria).concat(": llevas ").concat(
                texto_monto(spent, 2).as_str(),
            ).concat(" de ").concat(texto_monto(limit, 2).as_str()).concat(" (").concat(
                texto_monto(p, 0).as_str(),
            ).concat("%).");
            Ok(Some(NuevaNotificacion { tipo: String::from_str(tipo), title, body, reference_id: id }))
        },
    }
}

/// Avisos de una tarjeta de crédito para `hoy`: uno si su próxima fecha
/// de corte cae dentro de `DIAS_AVISO_TARJETA` días, otro si su próxima
/// fecha de pago límite también.
pub fn avisos_tarjeta(hoy: Fecha, id: u128, nombre: &str, cutoff_day: u32, payment_due_day: u32) -> (r: (
    Option<NuevaNotificacion>,
    Option<NuevaNotificacion>,
))
    requires
        hoy.wf(),
        cutoff_day >= 1,
        payment_due_day >= 1,
        proxima_ocurrencia_definida(hoy, cutoff_day as int),
        proxima_ocurrencia_definida(hoy, payment_due_day as int),
    ensures
        ({
            let corte = proxima_ocurrencia(hoy, cutoff_day as int);
            &&& r.0 is Some <==> ordinal(corte) <= ordinal(hoy) + DIAS_AVISO_TARJETA
            &&& r.0 matches Some(n) ==> n.tipo@ == "credit_card_cutoff"@ && n.title@
                == "Fecha de corte próxima: "@ + nombre@ && n.body@ == "Tu tarjeta "@ + nombre@
                + " corta el "@ + fecha_iso(corte) + "."@ && n.reference_id == id
        }),
        ({
            let pago = proxima_ocurrencia(hoy, payment_due_day as int);
            &&& r.1 is Some <==> ordinal(pago) <= ordinal(hoy) + DIAS_AVISO_TARJETA
            &&& r.1 matches Some(n) ==> n.tipo@ == "credit_card_due"@ && n.title@
                == "Pago límite próximo: "@ + nombre@ && n.body@ == "El pago límite de "@ + nombre@
                + " es el "@ + fecha_iso(pago) + "."@ && n.reference_id == id
        }),
{
    let h: i64 = ordinal_de(hoy) as i64;
    let corte = proxima_ocurrencia_dia_mes(hoy, cutoff_day);
    let aviso_corte = if (ordinal_de(corte) as i64) <= h + DIAS_AVISO_TARJETA {
        let title = String::from_str("Fecha de corte próxima: ").concat(nombre);
        let body = String::from_str("Tu tarjeta ").concat(nombre).concat(" corta el ").concat(
            texto_fecha(corte).as_str(),
        ).concat(".");
        Some(
            NuevaNotificacion {
                tipo: String::from_str("credit_card_cutoff"),
                title,
                body,
                reference_id: id,
            },
        )
    } else {
        None
    };
    let pago = proxima_ocurrencia_dia_mes(hoy, payment_due_day);
    let aviso_pago = if (ordinal_de(pago) as i64) <= h + DIAS_AVISO_TARJETA {
        let title = String::from_str("Pago límite próximo: ").concat(nombre);
        let body = String::from_str("El pago límite de ").concat(nombre).concat(" es el ").concat(
            texto_fecha(pago).as_str(),
        ).concat(".");
        Some(
            NuevaNotificacion {
                tipo: String::from_str("credit_card_due"),
                title,
                body,
                reference_id: id,
            },
        )
    } else {
        None
    };
    (aviso_corte, aviso_pago)
}

/// Notificación "no encontrada" al marcarla leída.
pub fn notificacion_no_encontrada() -> (r: AppError)
    ensures
        r matches AppError::NoEncontrado(m) && m@ == "Notificación no encontrada"@,
{
    no_encontrado("Notificación no encontrada")
}

} // verus!
