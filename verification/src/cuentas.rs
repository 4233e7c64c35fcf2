//! Cuentas y billeteras (efectivo, débito, crédito, ahorro), sus datos de
//! tarjeta de crédito, los avisos de corte y pago, y las transferencias
//! de dinero entre cuentas.
use crate::comun::validar_nombre;
use crate::contabilidad::validar_monto;
use crate::decimal::Monto;
use crate::errores::{es_no_encontrado, es_no_procesable, no_encontrado, no_procesable, AppError};
use crate::fecha::{
    es_anterior, ordinal, proxima_ocurrencia, proxima_ocurrencia_dia_mes, Fecha,
    proxima_ocurrencia_definida,
};
use crate::texto::{mismo_texto, recortado, solo_espacios};
use vstd::prelude::*;

verus! {

/// Días de anticipación con que se avisa de una fecha de corte o pago.
pub const DIAS_AVISO_TARJETA: i64 = 7;

/// Tipos que acepta el CHECK de `accounts`.
pub open spec fn es_tipo_cuenta(tipo: Seq<char>) -> bool {
    tipo == "cash"@ || tipo == "debit"@ || tipo == "credit"@ || tipo == "savings"@
}

/// El tipo de cuenta debe ser `cash`, `debit`, `credit` o `savings`.
pub fn validar_tipo(tipo: &str) -> (r: Result<(), AppError>)
    ensures
        r is Ok <==> es_tipo_cuenta(tipo@),
        r is Err ==> es_no_procesable(r, "El tipo debe ser una de: cash, debit, credit, savings"@),
{
    if mismo_texto(tipo, "cash") || mismo_texto(tipo, "debit") || mismo_texto(tipo, "credit")
        || mismo_texto(tipo, "savings") {
        Ok(())
    } else {
        Err(no_procesable("El tipo debe ser una de: cash, debit, credit, savings"))
    }
}

/// Las tarjetas de crédito son el único tipo con límite, obligatorio y
/// mayor a cero; para el resto se descarta lo que haya mandado el
/// cliente, así una cuenta que deja de ser `credit` no conserva un límite
/// huérfano.
pub fn normalizar_credit_limit(tipo: &str, credit_limit: Option<Monto>) -> (r: Result<Option<Monto>, AppError>)
    requires
        credit_limit matches Some(l) ==> l.wf(),
    ensures
        tipo@ != "credit"@ ==> r matches Ok(None),
        tipo@ == "credit"@ ==> (r is Ok <==> (credit_limit matches Some(l) && l@ > 0)),
        tipo@ == "credit"@ && r is Ok ==> r == Ok::<Option<Monto>, AppError>(credit_limit),
        r is Err ==> es_no_procesable(r, "Las tarjetas de crédito requieren un límite mayor a cero"@),
{
    if !mismo_texto(tipo, "credit") {
        return Ok(None);
    }
    match credit_limit {
        Some(limite) => {
            if limite.es_positivo() {
                Ok(Some(limite))
            } else {
                Err(no_procesable("Las tarjetas de crédito requieren un límite mayor a cero"))
            }
        },
        None => Err(no_procesable("Las tarjetas de crédito requieren un límite mayor a cero")),
    }
}

/// Día del mes válido para corte o pago (1-31).
pub open spec fn dia_valido(d: Option<i16>) -> bool {
    d matches Some(x) && 1 <= x <= 31
}

/// Solo las tarjetas de crédito tienen día de corte y de pago, y ambos
/// son obligatorios (1-31); para el resto de los tipos se descartan.
pub fn normalizar_dias_facturacion(tipo: &str, cutoff_day: Option<i16>, payment_due_day: Option<i16>) -> (r: Result<(Option<i16>, Option<i16>), AppError>)
    ensures
        tipo@ != "credit"@ ==> r matches Ok((None, None)),
        tipo@ == "credit"@ ==> (r is Ok <==> dia_valido(cutoff_day) && dia_valido(payment_due_day)),
        tipo@ == "credit"@ && r is Ok ==> (r matches Ok((c, p)) && c == cutoff_day && p
            == payment_due_day),
        r is Err ==> es_no_procesable(
            r,
            "Las tarjetas de crédito requieren día de corte y día límite de pago entre 1 y 31"@,
        ),
{
    if !mismo_texto(tipo, "credit") {
        return Ok((None, None));
    }
    match (cutoff_day, payment_due_day) {
        (Some(corte), Some(pago)) => {
            if 1 <= corte && corte <= 31 && 1 <= pago && pago <= 31 {
                Ok((Some(corte), Some(pago)))
            } else {
                Err(
                    no_procesable(
                        "Las tarjetas de crédito requieren día de corte y día límite de pago entre 1 y 31",
                    ),
                )
            }
        },
        _ => Err(
            no_procesable(
                "Las tarjetas de crédito requieren día de corte y día límite de pago entre 1 y 31",
            ),
        ),
    }
}

/// Datos de tarjeta ya normalizados: límite, día de corte y día de pago.
pub type DatosCredito = (Option<Monto>, Option<i16>, Option<i16>);

/// Límite y días de facturación normalizados, en el mismo orden que al
/// crear o editar una cuenta: primero el límite, después los días.
pub fn normalizar_credito(
    tipo: &str,
    credit_limit: Option<Monto>,
    cutoff_day: Option<i16>,
    payment_due_day: Option<i16>,
) -> (r: Result<DatosCredito, AppError>)
    requires
        credit_limit matches Some(l) ==> l.wf(),
    ensures
        tipo@ != "credit"@ ==> r matches Ok((None, None, None)),
        tipo@ == "credit"@ ==> (r is Ok <==> (credit_limit matches Some(l) && l@ > 0) && dia_valido(cutoff_day)
            && dia_valido(payment_due_day)),
        tipo@ == "credit"@ && r is Ok ==> (r matches Ok((l, c, p)) && l == credit_limit && c
            == cutoff_day && p == payment_due_day),
        tipo@ == "credit"@ && !(credit_limit matches Some(l) && l@ > 0) ==> es_no_procesable(
            r,
            "Las tarjetas de crédito requieren un límite mayor a cero"@,
        ),
        tipo@ == "credit"@ && (credit_limit matches Some(l) && l@ > 0) && !(dia_valido(cutoff_day) && dia_valido(payment_due_day))
            ==> es_no_procesable(
            r,
            "Las tarjetas de crédito requieren día de corte y día límite de pago entre 1 y 31"@,
        ),
{
    let limite = normalizar_credit_limit(tipo, credit_limit)?;
    let (corte, pago) = normalizar_dias_facturacion(tipo, cutoff_day, payment_due_day)?;
    Ok((limite, corte, pago))
}

/// Cuenta lista para insertarse.
#[derive(Debug)]
pub struct NuevaCuenta {
    pub name: String,
    pub tipo: String,
    pub balance: Monto,
    pub currency: String,
    pub credit_limit: Option<Monto>,
    pub cutoff_day: Option<i16>,
    pub payment_due_day: Option<i16>,
}

/// Datos de una cuenta nueva: tipo válido, nombre no vacío (se guarda
/// recortado), datos de tarjeta normalizados, saldo inicial 0 y moneda
/// `MXN` si no se indican.
pub fn preparar_cuenta(
    name: &str,
    tipo: &str,
    balance: Option<Monto>,
    currency: Option<&str>,
    credit_limit: Option<Monto>,
    cutoff_day: Option<i16>,
    payment_due_day: Option<i16>,
) -> (r: Result<NuevaCuenta, AppError>)
    requires
        credit_limit matches Some(l) ==> l.wf(),
        balance matches Some(b) ==> b.wf(),
    ensures
        !es_tipo_cuenta(tipo@) ==> es_no_procesable(r, "El tipo debe ser una de: cash, debit, credit, savings"@),
        es_tipo_cuenta(tipo@) && solo_espacios(name@) ==> es_no_procesable(r, "El nombre no puede estar vacío"@),
        r is Ok <==> es_tipo_cuenta(tipo@) && !solo_espacios(name@) && (tipo@ == "credit"@ ==> (
        credit_limit matches Some(l) && l@ > 0) && dia_valido(cutoff_day) && dia_valido(
            payment_due_day,
        )),
        r matches Ok(c) ==> {
            &&& c.name@ == recortado(name@)
            &&& c.tipo@ == tipo@
            &&& c.balance == match balance {
                Some(b) => b,
                None => Monto { mantisa: 0, escala: 0 },
            }
            &&& c.currency@ == match currency {
                Some(m) => m@,
                None => "MXN"@,
            }
            &&& tipo@ == "credit"@ ==> c.credit_limit == credit_limit && c.cutoff_day == cutoff_day
                && c.payment_due_day == payment_due_day
            &&& tipo@ != "credit"@ ==> c.credit_limit is None && c.cutoff_day is None
                && c.payment_due_day is None
        },
{
    validar_tipo(tipo)?;
    let nombre = validar_nombre(name)?;
    let (limite, corte, pago) = normalizar_credito(tipo, credit_limit, cutoff_day, payment_due_day)?;
    let saldo = match balance {
        Some(b) => b,
        None => Monto::cero(),
    };
    let moneda = match currency {
        Some(m) => String::from_str(m),
        None => String::from_str("MXN"),
    };
    Ok(
        NuevaCuenta {
            name: String::from_str(nombre),
            tipo: String::from_str(tipo),
            balance: saldo,
            currency: moneda,
            credit_limit: limite,
            cutoff_day: corte,
            payment_due_day: pago,
        },
    )
}

/// Tarjeta de crédito activa con sus días de corte y de pago.
#[derive(Debug)]
pub struct TarjetaCredito {
    pub id: u128,
    pub name: String,
    pub currency: String,
    pub balance: Monto,
    pub credit_limit: Monto,
    pub cutoff_day: i16,
    pub payment_due_day: i16,
}

/// Aviso de una tarjeta cuya fecha de corte o de pago cae en la ventana.
#[derive(Debug)]
pub struct AlertaTarjeta {
    pub account_id: u128,
    pub account_name: String,
    pub currency: String,
    pub balance: Monto,
    pub credit_limit: Monto,
    pub cutoff_date: Fecha,
    pub payment_due_date: Fecha,
}

/// Aviso de una tarjeta: sus próximas fechas de corte y de pago (desde
/// `hoy`), salvo que ambas caigan después de `limite`.
pub fn alerta_tarjeta(hoy: Fecha, limite: Fecha, cuenta: TarjetaCredito) -> (r: Option<AlertaTarjeta>)
    requires
        hoy.wf(),
        limite.wf(),
        1 <= cuenta.cutoff_day <= 31,
        1 <= cuenta.payment_due_day <= 31,
        proxima_ocurrencia_definida(hoy, cuenta.cutoff_day as int),
        proxima_ocurrencia_definida(hoy, cuenta.payment_due_day as int),
    ensures
        ({
            let corte = proxima_ocurrencia(hoy, cuenta.cutoff_day as int);
            let pago = proxima_ocurrencia(hoy, cuenta.payment_due_day as int);
            &&& r is None <==> (ordinal(corte) > ordinal(limite) && ordinal(pago) > ordinal(limite))
            &&& r matches Some(a) ==> a.account_id == cuenta.id && a.account_name == cuenta.name
                && a.currency == cuenta.currency && a.balance == cuenta.balance && a.credit_limit
                == cuenta.credit_limit && a.cutoff_date == corte && a.payment_due_date == pago
        }),
{
    let corte = proxima_ocurrencia_dia_mes(hoy, cuenta.cutoff_day as u32);
    let pago = proxima_ocurrencia_dia_mes(hoy, cuenta.payment_due_day as u32);
    if es_anterior(limite, corte) && es_anterior(limite, pago) {
        return None;
    }
    Some(
        AlertaTarjeta {
            account_id: cuenta.id,
            account_name: cuenta.name,
            currency: cuenta.currency,
            balance: cuenta.balance,
            credit_limit: cuenta.credit_limit,
            cutoff_date: corte,
            payment_due_date: pago,
        },
    )
}

/// Una transferencia mueve un monto positivo entre dos cuentas distintas.
pub fn validar_transferencia(from_account_id: u128, to_account_id: u128, amount: Monto) -> (r: Result<(), AppError>)
    requires
        amount.wf(),
    ensures
        r is Ok <==> amount@ > 0 && from_account_id != to_account_id,
        amount@ <= 0 ==> es_no_procesable(r, "El monto debe ser mayor a cero"@),
        amount@ > 0 && from_account_id == to_account_id ==> es_no_procesable(
            r,
            "La cuenta de origen y destino no pueden ser la misma"@,
        ),
{
    validar_monto(amount)?;
    if from_account_id == to_account_id {
        return Err(no_procesable("La cuenta de origen y destino no pueden ser la misma"));
    }
    Ok(())
}

/// Las dos cuentas en el orden (por id) en que se bloquean, siempre el
/// mismo para que dos operaciones concurrentes no se bloqueen entre sí.
pub fn orden_de_bloqueo(a: u128, b: u128) -> (r: (u128, u128))
    ensures
        r.0 <= r.1,
        (r.0 == a && r.1 == b) || (r.0 == b && r.1 == a),
{
    if a < b {
        (a, b)
    } else {
        (b, a)
    }
}

/// Cuántas cuentas distintas hay que bloquear para mover saldo entre `a` y `b`.
pub fn cuentas_esperadas(a: u128, b: u128) -> (r: usize)
    ensures
        r == if a == b {
            1usize
        } else {
            2usize
        },
{
    if a == b {
        1
    } else {
        2
    }
}

/// Tras bloquear las cuentas: todas las esperadas deben existir en el
/// workspace.
pub fn comprobar_bloqueo(bloqueadas: usize, esperadas: usize, mensaje: &str) -> (r: Result<(), AppError>)
    ensures
        r is Ok <==> bloqueadas == esperadas,
        r is Err ==> es_no_encontrado(r, mensaje@),
{
    if bloqueadas != esperadas {
        Err(no_encontrado(mensaje))
    } else {
        Ok(())
    }
}

/// Tras leer el dueño de una cuenta del workspace (`None` si no existe):
/// las cuentas son personales, así que operar sobre la de otro se trata
/// igual que una cuenta inexistente (404).
pub fn comprobar_cuenta_propia(owner_id: Option<u128>, usuario_id: u128) -> (r: Result<(), AppError>)
    ensures
        r is Ok <==> owner_id == Some(usuario_id),
        r is Err ==> es_no_encontrado(r, "Cuenta no encontrada"@),
{
    match owner_id {
        Some(o) => {
            if o == usuario_id {
                Ok(())
            } else {
                Err(no_encontrado("Cuenta no encontrada"))
            }
        },
        None => Err(no_encontrado("Cuenta no encontrada")),
    }
}

/// Ajustes de saldo de una transferencia: `-amount` al origen y `+amount`
/// al destino.
pub fn ajustes_transferencia(amount: Monto) -> (r: (Monto, Monto))
    requires
        amount.wf(),
    ensures
        r.0.wf(),
        r.1.wf(),
        r.0@ == -amount@,
        r.0.escala == amount.escala,
        r.1 == amount,
        r.0@ + r.1@ == 0,
{
    (amount.negado(), amount)
}

/// Una transferencia no crea ni destruye dinero: lo que sale del origen
/// entra al destino, así que la suma de ambos saldos no cambia.
pub proof fn ley_transferencia_conserva(origen: int, destino: int, amount: Monto)
    requires
        amount.wf(),
    ensures
        (origen - amount@) + (destino + amount@) == origen + destino,
{
}

} // verus!
