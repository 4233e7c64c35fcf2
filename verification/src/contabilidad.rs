//! Reglas de transacciones, categorías, suscripciones y presupuestos:
//! validaciones, el sentido en que cada movimiento ajusta el saldo de su
//! cuenta y el avance de las fechas de cobro.
use crate::comun::exigir_dueno;
use crate::decimal::Monto;
use crate::errores::{
    es_interno, es_no_encontrado, es_no_procesable, es_prohibido, interno, no_encontrado,
    no_procesable, AppError,
};
use crate::fecha::{sumar_meses_calendario, sumar_meses_spec, Fecha};
use crate::texto::mismo_texto;
use vstd::prelude::*;

verus! {

/// `income` o `expense`: los tipos que acepta el CHECK de la tabla.
pub open spec fn es_tipo_movimiento(tipo: Seq<char>) -> bool {
    tipo == "income"@ || tipo == "expense"@
}

/// El tipo debe ser `income` o `expense`.
pub fn validar_tipo(tipo: &str) -> (r: Result<(), AppError>)
    ensures
        r is Ok <==> es_tipo_movimiento(tipo@),
        r is Err ==> es_no_procesable(r, "El tipo debe ser 'income' o 'expense'"@),
{
    if mismo_texto(tipo, "income") || mismo_texto(tipo, "expense") {
        Ok(())
    } else {
        Err(no_procesable("El tipo debe ser 'income' o 'expense'"))
    }
}

/// El monto de un movimiento debe ser mayor a cero.
pub fn validar_monto(monto: Monto) -> (r: Result<(), AppError>)
    requires
        monto.wf(),
    ensures
        r is Ok <==> monto@ > 0,
        r is Err ==> es_no_procesable(r, "El monto debe ser mayor a cero"@),
{
    if monto.es_positivo() {
        Ok(())
    } else {
        Err(no_procesable("El monto debe ser mayor a cero"))
    }
}

/// El límite de un presupuesto debe ser mayor a cero.
pub fn validar_limite(monto: Monto) -> (r: Result<(), AppError>)
    requires
        monto.wf(),
    ensures
        r is Ok <==> monto@ > 0,
        r is Err ==> es_no_procesable(r, "El límite debe ser mayor a cero"@),
{
    if monto.es_positivo() {
        Ok(())
    } else {
        Err(no_procesable("El límite debe ser mayor a cero"))
    }
}

/// Cuánto mueve un movimiento el saldo de su cuenta: `+monto` si es
/// ingreso, `-monto` si es gasto.
pub open spec fn ajuste_spec(tipo: Seq<char>, monto: Monto) -> int {
    if tipo == "income"@ {
        monto@
    } else {
        -monto@
    }
}

/// Cuánto (y en qué sentido) mueve una transacción el saldo de su cuenta:
/// positivo si es ingreso, negativo si es gasto.
pub fn ajuste_balance(tipo: &str, monto: Monto) -> (r: Monto)
    requires
        monto.wf(),
    ensures
        r.wf(),
        r@ == ajuste_spec(tipo@, monto),
        r.escala == monto.escala,
{
    if mismo_texto(tipo, "income") {
        monto
    } else {
        monto.negado()
    }
}

/// Una suscripción es siempre un gasto: cobrarla resta su monto.
pub fn ajuste_balance_suscripcion(monto: Monto) -> (r: Monto)
    requires
        monto.wf(),
    ensures
        r.wf(),
        r@ == -monto@,
        r.escala == monto.escala,
{
    monto.negado()
}

/// Crear una transacción aplica `ajuste` a su cuenta y eliminarla resta
/// ese mismo ajuste: juntas dejan el saldo como estaba. Editarla revierte
/// el ajuste viejo y aplica el nuevo, así que el efecto neto es la
/// diferencia entre ambos.
pub proof fn ley_revertir_ajuste(tipo: Seq<char>, monto: Monto, tipo_nuevo: Seq<char>, monto_nuevo: Monto)
    ensures
        ajuste_spec(tipo, monto) - ajuste_spec(tipo, monto) == 0,
        ajuste_spec(tipo, monto) + (ajuste_spec(tipo_nuevo, monto_nuevo) - ajuste_spec(tipo, monto))
            == ajuste_spec(tipo_nuevo, monto_nuevo),
        tipo == "income"@ ==> ajuste_spec(tipo, monto) == monto@,
        tipo == "expense"@ ==> ajuste_spec(tipo, monto) == -monto@,
{
    reveal_strlit("income");
    reveal_strlit("expense");
    assert("income"@[0] != "expense"@[0]);
}

/// Periodicidades que acepta el CHECK de `subscriptions`.
pub open spec fn es_periodicidad(p: Seq<char>) -> bool {
    p == "monthly"@ || p == "bimonthly"@ || p == "quarterly"@ || p == "annual"@
}

/// La periodicidad debe ser `monthly`, `bimonthly`, `quarterly` o `annual`.
pub fn validar_periodicidad(periodicity: &str) -> (r: Result<(), AppError>)
    ensures
        r is Ok <==> es_periodicidad(periodicity@),
        r is Err ==> es_no_procesable(
            r,
            "La periodicidad debe ser una de: monthly, bimonthly, quarterly, annual"@,
        ),
{
    if mismo_texto(periodicity, "monthly") || mismo_texto(periodicity, "bimonthly")
        || mismo_texto(periodicity, "quarterly") || mismo_texto(periodicity, "annual") {
        Ok(())
    } else {
        Err(no_procesable("La periodicidad debe ser una de: monthly, bimonthly, quarterly, annual"))
    }
}

pub open spec fn meses_spec(p: Seq<char>) -> int {
    if p == "monthly"@ {
        1
    } else if p == "bimonthly"@ {
        2
    } else if p == "quarterly"@ {
        3
    } else {
        12
    }
}

/// Cada periodicidad avanza su número de meses: mensual uno, bimestral
/// dos, trimestral tres y anual doce; un cobro bimestral equivale a dos
/// mensuales, uno trimestral a tres y uno anual a cuatro trimestrales.
pub proof fn ley_periodicidades()
    ensures
        meses_spec("monthly"@) == 1,
        meses_spec("bimonthly"@) == 2 * meses_spec("monthly"@),
        meses_spec("quarterly"@) == 3 * meses_spec("monthly"@),
        meses_spec("annual"@) == 4 * meses_spec("quarterly"@),
        meses_spec("annual"@) == 12,
{
    reveal_strlit("monthly");
    reveal_strlit("bimonthly");
    reveal_strlit("quarterly");
    reveal_strlit("annual");
    assert("bimonthly"@[0] != "monthly"@[0]);
    assert("quarterly"@[0] != "monthly"@[0]);
    assert("quarterly"@[0] != "bimonthly"@[0]);
    assert("annual"@[0] != "monthly"@[0]);
    assert("annual"@[0] != "bimonthly"@[0]);
    assert("annual"@[0] != "quarterly"@[0]);
}

/// Cuántos meses avanza cada periodicidad al marcar un cobro como hecho.
pub fn meses_por_periodicidad(periodicity: &str) -> (r: u32)
    requires
        es_periodicidad(periodicity@),
    ensures
        r == meses_spec(periodicity@),
        r == 1 || r == 2 || r == 3 || r == 12,
        periodicity@ == "monthly"@ ==> r == 1,
        periodicity@ == "bimonthly"@ ==> r == 2,
        periodicity@ == "quarterly"@ ==> r == 3,
        periodicity@ == "annual"@ ==> r == 12,
{
    proof {
        ley_periodicidades();
    }
    if mismo_texto(periodicity, "monthly") {
        1
    } else if mismo_texto(periodicity, "bimonthly") {
        2
    } else if mismo_texto(periodicity, "quarterly") {
        3
    } else {
        12
    }
}

/// Fecha del cobro siguiente: la actual más los meses de la periodicidad
/// (con el día ajustado al último del mes si hace falta).
pub fn siguiente_cobro(next_billing_date: Fecha, periodicity: &str) -> (r: Result<Fecha, AppError>)
    requires
        next_billing_date.wf(),
        es_periodicidad(periodicity@),
    ensures
        r is Ok <==> sumar_meses_spec(next_billing_date, meses_spec(periodicity@)) is Some,
        r matches Ok(f) ==> Some(f) == sumar_meses_spec(next_billing_date, meses_spec(periodicity@)),
        r is Err ==> es_interno(r),
        periodicity@ == "monthly"@ ==> r == Ok::<Fecha, AppError>(sumar_meses_spec(next_billing_date, 1)->0) || (sumar_meses_spec(next_billing_date, 1) is None && r is Err),
        periodicity@ == "bimonthly"@ ==> r == Ok::<Fecha, AppError>(sumar_meses_spec(next_billing_date, 2)->0) || (sumar_meses_spec(next_billing_date, 2) is None && r is Err),
        periodicity@ == "quarterly"@ ==> r == Ok::<Fecha, AppError>(sumar_meses_spec(next_billing_date, 3)->0) || (sumar_meses_spec(next_billing_date, 3) is None && r is Err),
        periodicity@ == "annual"@ ==> r == Ok::<Fecha, AppError>(sumar_meses_spec(next_billing_date, 12)->0) || (sumar_meses_spec(next_billing_date, 12) is None && r is Err),
{
    proof {
        ley_periodicidades();
    }
    let meses: u32 = meses_por_periodicidad(periodicity);
    match sumar_meses_calendario(next_billing_date, meses) {
        Some(f) => Ok(f),
        None => Err(interno("Overflow al calcular la próxima fecha")),
    }
}

/// Un cobro de suscripción: la nueva fecha de cobro y, si tiene cuenta,
/// el movimiento real (cuenta, ajuste de saldo y fecha de la transacción).
#[derive(Debug)]
pub struct CobroSuscripcion {
    pub siguiente: Fecha,
    pub movimiento: Option<(u128, Monto, Fecha)>,
}

/// Marcar cobrada una suscripción: solo su dueño puede hacerlo; la fecha
/// de cobro avanza según la periodicidad y, si la suscripción tiene
/// cuenta, se genera el gasto con la fecha del cobro que correspondía a
/// este ciclo (la fecha vieja), restando el monto del saldo.
pub fn preparar_cobro(
    owner_id: u128,
    usuario_id: u128,
    periodicity: &str,
    next_billing_date: Fecha,
    amount: Monto,
    account_id: Option<u128>,
) -> (r: Result<CobroSuscripcion, AppError>)
    requires
        next_billing_date.wf(),
        amount.wf(),
        es_periodicidad(periodicity@),
    ensures
        owner_id != usuario_id ==> es_prohibido(
            r,
            "Solo el dueño de la suscripción puede marcarla cobrada"@,
        ),
        r is Ok <==> owner_id == usuario_id && sumar_meses_spec(
            next_billing_date,
            meses_spec(periodicity@),
        ) is Some,
        r matches Ok(c) ==> {
            &&& Some(c.siguiente) == sumar_meses_spec(next_billing_date, meses_spec(periodicity@))
            &&& match account_id {
                Some(cuenta) => c.movimiento matches Some(m) && m.0 == cuenta && m.1.wf() && m.1@
                    == -amount@ && m.1.escala == amount.escala && m.2 == next_billing_date,
                None => c.movimiento is None,
            }
        },
        owner_id == usuario_id && r is Err ==> es_interno(r),
{
    exigir_dueno(owner_id, usuario_id, "Solo el dueño de la suscripción puede marcarla cobrada")?;
    let siguiente = siguiente_cobro(next_billing_date, periodicity)?;
    let movimiento = match account_id {
        Some(cuenta) => Some((cuenta, ajuste_balance_suscripcion(amount), next_billing_date)),
        None => None,
    };
    Ok(CobroSuscripcion { siguiente, movimiento })
}

/// Tras leer el tipo de una categoría visible desde el workspace (global
/// o propia): `None` es que no existe o no es visible (404); un tipo
/// distinto del esperado es 422.
pub fn comprobar_categoria(tipo_categoria: Option<&str>, tipo_esperado: &str) -> (r: Result<(), AppError>)
    ensures
        tipo_categoria is None ==> es_no_encontrado(r, "Categoría no encontrada"@),
        tipo_categoria matches Some(t) ==> (r is Ok <==> t@ == tipo_esperado@),
        tipo_categoria matches Some(t) ==> (t@ != tipo_esperado@ ==> es_no_procesable(
            r,
            "La categoría es de tipo '"@ + t@ + "', se esperaba '"@ + tipo_esperado@ + "'"@,
        )),
{
    match tipo_categoria {
        None => Err(no_encontrado("Categoría no encontrada")),
        Some(t) => {
            if mismo_texto(t, tipo_esperado) {
                Ok(())
            } else {
                let mut m = String::from_str("La categoría es de tipo '");
                m.append(t);
                m.append("', se esperaba '");
                m.append(tipo_esperado);
                m.append("'");
                Err(AppError::NoProcesable(m))
            }
        },
    }
}


/// Tipo y monto de una transacción o de un previsto: el tipo primero,
/// luego el monto.
pub fn validar_movimiento(tipo: &str, amount: Monto) -> (r: Result<(), AppError>)
    requires
        amount.wf(),
    ensures
        !es_tipo_movimiento(tipo@) ==> es_no_procesable(r, "El tipo debe ser 'income' o 'expense'"@),
        es_tipo_movimiento(tipo@) && amount@ <= 0 ==> es_no_procesable(
            r,
            "El monto debe ser mayor a cero"@,
        ),
        r is Ok <==> es_tipo_movimiento(tipo@) && amount@ > 0,
{
    validar_tipo(tipo)?;
    validar_monto(amount)
}

/// Saldos tras sumar `delta` al de `cuenta`.
pub open spec fn aplicar_ajuste(saldos: Map<u128, int>, cuenta: u128, delta: int) -> Map<
    u128,
    int,
> {
    saldos.insert(cuenta, saldos[cuenta] + delta)
}

/// Crear una transacción y luego eliminarla deja todos los saldos como
/// estaban; y editarla (revertir el ajuste viejo en su cuenta y aplicar
/// el nuevo en la suya) deja los mismos saldos que eliminar la vieja y
/// crear la nueva, cada una sobre su cuenta.
pub proof fn ley_crear_y_eliminar(
    saldos: Map<u128, int>,
    cuenta: u128,
    tipo: Seq<char>,
    monto: Monto,
)
    requires
        saldos.dom().contains(cuenta),
    ensures
        aplicar_ajuste(
            aplicar_ajuste(saldos, cuenta, ajuste_spec(tipo, monto)),
            cuenta,
            -ajuste_spec(tipo, monto),
        ) == saldos,
{
    let a = ajuste_spec(tipo, monto);
    assert(aplicar_ajuste(aplicar_ajuste(saldos, cuenta, a), cuenta, -a) =~= saldos);
}

/// Editar una transacción que no cambia de cuenta mueve su saldo solo
/// por la diferencia entre el ajuste nuevo y el viejo; si cambia de
/// cuenta, la vieja pierde su ajuste y la nueva gana el suyo, y ninguna
/// otra cuenta cambia.
pub proof fn ley_editar_transaccion(
    saldos: Map<u128, int>,
    cuenta_vieja: u128,
    tipo_viejo: Seq<char>,
    monto_viejo: Monto,
    cuenta_nueva: u128,
    tipo_nuevo: Seq<char>,
    monto_nuevo: Monto,
)
    requires
        saldos.dom().contains(cuenta_vieja),
        saldos.dom().contains(cuenta_nueva),
    ensures
        ({
            let tras = aplicar_ajuste(
                aplicar_ajuste(saldos, cuenta_vieja, -ajuste_spec(tipo_viejo, monto_viejo)),
                cuenta_nueva,
                ajuste_spec(tipo_nuevo, monto_nuevo),
            );
            &&& tras.dom() == saldos.dom()
            &&& cuenta_vieja == cuenta_nueva ==> tras[cuenta_nueva] == saldos[cuenta_nueva]
                + ajuste_spec(tipo_nuevo, monto_nuevo) - ajuste_spec(tipo_viejo, monto_viejo)
            &&& cuenta_vieja != cuenta_nueva ==> tras[cuenta_vieja] == saldos[cuenta_vieja]
                - ajuste_spec(tipo_viejo, monto_viejo) && tras[cuenta_nueva] == saldos[cuenta_nueva]
                + ajuste_spec(tipo_nuevo, monto_nuevo)
            &&& forall|c: u128|
                c != cuenta_vieja && c != cuenta_nueva && saldos.dom().contains(c) ==> tras[c]
                    == saldos[c]
        }),
{
    let tras = aplicar_ajuste(
        aplicar_ajuste(saldos, cuenta_vieja, -ajuste_spec(tipo_viejo, monto_viejo)),
        cuenta_nueva,
        ajuste_spec(tipo_nuevo, monto_nuevo),
    );
    assert(tras.dom() =~= saldos.dom());
}

/// Un pago o ingreso previsto (evento único a futuro).
pub struct Previsto {
    pub id: u128,
    pub tipo: String,
    pub amount: Monto,
    pub due_date: Fecha,
    pub category_id: Option<u128>,
    pub account_id: Option<u128>,
    pub description: Option<String>,
    pub is_paid: bool,
    pub created_by: u128,
}

/// Marcar pagado un previsto: solo quien lo registró puede hacerlo; si
/// tiene cuenta, devuelve la cuenta y el ajuste de su saldo (positivo si
/// es ingreso, negativo si es gasto), que también es el movimiento que se
/// registra con la fecha del previsto.
pub fn preparar_pago_previsto(previsto: &Previsto, usuario_id: u128) -> (r: Result<
    Option<(u128, Monto)>,
    AppError,
>)
    requires
        previsto.amount.wf(),
    ensures
        r is Ok <==> previsto.created_by == usuario_id,
        r is Err ==> es_prohibido(r, "Solo quien registró el previsto puede marcarlo pagado"@),
        r matches Ok(m) ==> match previsto.account_id {
            Some(c) => m matches Some(x) && x.0 == c && x.1.wf() && x.1@ == ajuste_spec(
                previsto.tipo@,
                previsto.amount,
            ) && x.1.escala == previsto.amount.escala,
            None => m is None,
        },
{
    exigir_dueno(
        previsto.created_by,
        usuario_id,
        "Solo quien registró el previsto puede marcarlo pagado",
    )?;
    match previsto.account_id {
        Some(c) => Ok(Some((c, ajuste_balance(previsto.tipo.as_str(), previsto.amount)))),
        None => Ok(None),
    }
}

} // verus!
