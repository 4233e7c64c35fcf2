//! Metas de ahorro: aportes y retiros, progreso y cuánto aportar por
//! período para llegar a tiempo.
use crate::contabilidad::{es_tipo_movimiento, validar_monto, validar_tipo};
use crate::decimal::{
    cabe, cociente_es_exacto, dec_cociente, dec_resta, dec_suma, dividir, entero,
    lema_comparar_por_factor, lema_pot10_positiva, max_escala, menor_que, pot10,
    resta_es_exacta, restar, sumar, Monto, ESCALA_MAX, MANTISA_MAX,
};
use crate::errores::{error_aritmetico, es_interno, es_no_procesable, no_procesable, AppError};
use crate::fecha::{dias_entre, ordinal, Fecha};
use crate::texto::mismo_texto;
use vstd::prelude::*;

verus! {

/// El monto objetivo de una meta debe ser mayor a cero.
pub fn validar_monto_objetivo(monto: Monto) -> (r: Result<(), AppError>)
    requires
        monto.wf(),
    ensures
        r is Ok <==> monto@ > 0,
        r is Err ==> es_no_procesable(r, "El monto objetivo debe ser mayor a cero"@),
{
    if monto.es_positivo() {
        Ok(())
    } else {
        Err(no_procesable("El monto objetivo debe ser mayor a cero"))
    }
}

/// Tipo efectivo de un aporte: `income` si no se indica.
pub open spec fn tipo_aporte(tipo: Option<Seq<char>>) -> Seq<char> {
    match tipo {
        Some(t) => t,
        None => "income"@,
    }
}

pub open spec fn vista_opcional(tipo: Option<&str>) -> Option<Seq<char>> {
    match tipo {
        Some(t) => Some(t@),
        None => None,
    }
}

/// Validaciones de un aporte antes de tocar la base: monto positivo y
/// tipo `income` (aporte, por defecto) o `expense` (retiro). Devuelve el
/// tipo efectivo.
pub fn validar_aporte(amount: Monto, tipo: Option<&str>) -> (r: Result<String, AppError>)
    requires
        amount.wf(),
    ensures
        r is Ok <==> amount@ > 0 && es_tipo_movimiento(tipo_aporte(vista_opcional(tipo))),
        r matches Ok(t) ==> t@ == tipo_aporte(vista_opcional(tipo)),
        amount@ <= 0 ==> es_no_procesable(r, "El monto debe ser mayor a cero"@),
        amount@ > 0 && !es_tipo_movimiento(tipo_aporte(vista_opcional(tipo))) ==> es_no_procesable(
            r,
            "El tipo debe ser 'income' o 'expense'"@,
        ),
{
    validar_monto(amount)?;
    let t = match tipo {
        Some(t) => String::from_str(t),
        None => String::from_str("income"),
    };
    validar_tipo(t.as_str())?;
    Ok(t)
}

/// Efecto de un aporte: el nuevo monto acumulado de la meta, si queda
/// completada y cuánto se ajusta el saldo de la cuenta.
#[derive(Debug)]
pub struct EfectoAporte {
    pub nuevo_monto: Monto,
    pub completada: bool,
    pub ajuste_cuenta: Monto,
}

/// Cuánto cambia el monto de la meta: `+amount` si es aporte, `-amount`
/// si es retiro.
pub open spec fn delta_meta(tipo: Seq<char>, amount: Monto) -> Monto {
    if tipo == "income"@ {
        amount
    } else {
        Monto { mantisa: (-amount.mantisa) as i128, escala: amount.escala }
    }
}

/// Aplica un aporte (o retiro) a una meta con `target_amount` y
/// `current_amount`: el monto acumulado cambia en `±amount`, no puede
/// quedar negativo, la meta queda completada si alcanza el objetivo y la
/// cuenta se ajusta en sentido contrario (el dinero pasa de la cuenta a
/// la meta o vuelve de ella).
pub fn aplicar_aporte(target_amount: Monto, current_amount: Monto, amount: Monto, tipo: &str) -> (r: Result<EfectoAporte, AppError>)
    requires
        target_amount.wf(),
        current_amount.wf(),
        amount.wf(),
        es_tipo_movimiento(tipo@),
    ensures
        r is Ok <==> (dec_suma(current_amount, delta_meta(tipo@, amount)) matches Some(n) && n@
            >= 0),
        r matches Ok(e) ==> {
            &&& Some(e.nuevo_monto) == dec_suma(current_amount, delta_meta(tipo@, amount))
            &&& e.nuevo_monto.wf()
            &&& e.nuevo_monto@ >= 0
            &&& e.completada == (e.nuevo_monto@ >= target_amount@)
            &&& e.ajuste_cuenta.wf()
            &&& e.ajuste_cuenta@ == -delta_meta(tipo@, amount)@
            &&& e.ajuste_cuenta.escala == amount.escala
            &&& cabe(current_amount@ + delta_meta(tipo@, amount)@, max_escala(current_amount, delta_meta(tipo@, amount)))
                ==> e.nuevo_monto@ == current_amount@ + delta_meta(tipo@, amount)@
        },
        dec_suma(current_amount, delta_meta(tipo@, amount)) is None ==> es_interno(r),
        (dec_suma(current_amount, delta_meta(tipo@, amount)) matches Some(n) && n@ < 0)
            ==> es_no_procesable(r, "El retiro supera los fondos acumulados en la meta"@),
{
    proof {
        crate::decimal::lema_vista_negada(amount);
    }
    let es_ingreso = mismo_texto(tipo, "income");
    let delta = if es_ingreso {
        amount
    } else {
        amount.negado()
    };
    let nuevo = match sumar(current_amount, delta) {
        Some(n) => n,
        None => {
            return Err(error_aritmetico());
        },
    };
    if nuevo.es_negativo() {
        return Err(no_procesable("El retiro supera los fondos acumulados en la meta"));
    }
    let completada = !menor_que(nuevo, target_amount);
    let ajuste_cuenta = if es_ingreso {
        amount.negado()
    } else {
        amount
    };
    Ok(EfectoAporte { nuevo_monto: nuevo, completada, ajuste_cuenta })
}

/// Lo que un aporte quita de la cuenta es exactamente lo que suma a la
/// meta (y un retiro, al revés): entre ambas el dinero se conserva.
pub proof fn ley_aporte_conserva(tipo: Seq<char>, amount: Monto, meta: int, cuenta: int)
    requires
        amount.wf(),
    ensures
        (meta + delta_meta(tipo, amount)@) + (cuenta - delta_meta(tipo, amount)@) == meta + cuenta,
{
}

/// Período de la proyección: `monthly` si no se indica; debe ser
/// `weekly` o `monthly`.
pub fn validar_periodo(periodo: Option<&str>) -> (r: Result<String, AppError>)
    ensures
        r is Ok <==> (tipo_periodo(vista_opcional(periodo)) == "weekly"@ || tipo_periodo(
            vista_opcional(periodo),
        ) == "monthly"@),
        r matches Ok(p) ==> p@ == tipo_periodo(vista_opcional(periodo)),
        r is Err ==> es_no_procesable(r, "El período debe ser 'weekly' o 'monthly'"@),
{
    let p = match periodo {
        Some(p) => String::from_str(p),
        None => String::from_str("monthly"),
    };
    if !mismo_texto(p.as_str(), "weekly") && !mismo_texto(p.as_str(), "monthly") {
        return Err(no_procesable("El período debe ser 'weekly' o 'monthly'"));
    }
    Ok(p)
}

pub open spec fn tipo_periodo(periodo: Option<Seq<char>>) -> Seq<char> {
    match periodo {
        Some(p) => p,
        None => "monthly"@,
    }
}

/// Días de un período: 7 para `weekly`; cualquier otro se aproxima a 30.
pub open spec fn dias_por_periodo(periodo: Seq<char>) -> int {
    if periodo == "weekly"@ {
        7
    } else {
        30
    }
}

/// Períodos completos que quedan de `hoy` a `deadline`, contando uno
/// parcial como completo (división hacia arriba).
pub open spec fn periodos_spec(dias: int, por_periodo: int) -> int {
    (dias + por_periodo - 1) / por_periodo
}

/// Cuántos períodos (semanas o meses de 30 días) quedan entre `hoy` y
/// `deadline`, redondeando hacia arriba. Falla si la fecha límite ya
/// pasó.
pub fn periodos_restantes(hoy: Fecha, deadline: Fecha, periodo: &str) -> (r: Result<i64, AppError>)
    requires
        hoy.wf(),
        deadline.wf(),
    ensures
        r is Ok <==> ordinal(deadline) > ordinal(hoy),
        r matches Ok(p) ==> p == periodos_spec(ordinal(deadline) - ordinal(hoy), dias_por_periodo(periodo@)),
        r is Err ==> es_no_procesable(r, "La fecha límite de la meta ya pasó"@),
{
    let dias_restantes: i64 = dias_entre(hoy, deadline);
    if dias_restantes <= 0 {
        return Err(no_procesable("La fecha límite de la meta ya pasó"));
    }
    let dias_por_periodo: i64 = if mismo_texto(periodo, "weekly") {
        7
    } else {
        30
    };
    Ok((dias_restantes + dias_por_periodo - 1) / dias_por_periodo)
}

/// Con `p` períodos de `d` días se cubren los días que faltan, y con uno
/// menos no.
pub proof fn ley_periodos_cubren(dias: int, d: int)
    requires
        dias > 0,
        d == 7 || d == 30,
    ensures
        periodos_spec(dias, d) >= 1,
        periodos_spec(dias, d) * d >= dias,
        (periodos_spec(dias, d) - 1) * d < dias,
{
    let p = periodos_spec(dias, d);
    assert(p * d >= dias && (p - 1) * d < dias) by (nonlinear_arith)
        requires
            p == (dias + d - 1) / d,
            d > 0,
            dias > 0,
    ;
}

/// Cuánto aportar por período para llegar a la meta a tiempo.
#[derive(Debug)]
pub struct ProyeccionMeta {
    pub periodo: String,
    pub periodos_restantes: i64,
    pub aporte_necesario: Monto,
}

/// Lo que falta para el objetivo, nunca negativo.
pub open spec fn restante_spec(target: Monto, current: Monto) -> Option<Monto> {
    match dec_resta(target, current) {
        Some(x) => if x@ < 0 {
            Some(Monto { mantisa: 0, escala: 0 })
        } else {
            Some(x)
        },
        None => None,
    }
}

/// Lo que falta para una meta nunca es negativo; con la resta exacta es
/// la diferencia entre objetivo y acumulado, o cero si la meta ya está
/// cubierta.
pub proof fn ley_restante_para_meta(target_amount: Monto, current_amount: Monto)
    requires
        target_amount.wf(),
        current_amount.wf(),
    ensures
        restante_spec(target_amount, current_amount) matches Some(x) ==> x@ >= 0,
        resta_es_exacta(target_amount, current_amount) ==> (restante_spec(
            target_amount,
            current_amount,
        ) matches Some(x) && x@ == if current_amount@ >= target_amount@ {
            0
        } else {
            target_amount@ - current_amount@
        }),
{
}

/// El aporte por período reparte lo que falta entre los `n` períodos: con
/// la división exacta, el aporte por `n` da lo que falta, así que nunca
/// es negativo, y es cero si la meta ya está cubierta.
pub proof fn ley_aporte_necesario(target_amount: Monto, current_amount: Monto, n: int)
    requires
        target_amount.wf(),
        current_amount.wf(),
        1 <= n <= MANTISA_MAX,
        restante_spec(target_amount, current_amount) matches Some(x) && cociente_es_exacto(
            x,
            entero(n),
        ),
    ensures
        ({
            let x = restante_spec(target_amount, current_amount)->0;
            &&& dec_cociente(x, entero(n)) matches Some(a) && a@ * n == x@ && a@ >= 0
            &&& (resta_es_exacta(target_amount, current_amount) && current_amount@ >= target_amount@)
                ==> dec_cociente(x, entero(n))->0@ == 0
        }),
{
    let x = restante_spec(target_amount, current_amount)->0;
    let a = dec_cociente(x, entero(n))->0;
    let unidad: int = pot10(ESCALA_MAX as nat);
    lema_pot10_positiva(ESCALA_MAX as nat);
    crate::decimal::lema_entero(n);
    ley_restante_para_meta(target_amount, current_amount);
    assert(a@ * (n * unidad) == (a@ * n) * unidad) by (nonlinear_arith);
    lema_comparar_por_factor(a@ * n, x@, unidad);
    assert(a@ * n == x@);
    if a@ < 0 {
        assert(a@ * n < 0) by (nonlinear_arith)
            requires
                a@ < 0,
                n >= 1,
        ;
    }
    if x@ == 0 {
        if a@ > 0 {
            assert(a@ * n > 0) by (nonlinear_arith)
                requires
                    a@ > 0,
                    n >= 1,
            ;
        }
    }
}

/// Lo que falta para el objetivo: `(target - current).max(0)`.
pub fn restante_para_meta(target_amount: Monto, current_amount: Monto) -> (r: Result<Monto, AppError>)
    requires
        target_amount.wf(),
        current_amount.wf(),
    ensures
        r is Ok <==> restante_spec(target_amount, current_amount) is Some,
        r matches Ok(x) ==> x.wf() && Some(x) == restante_spec(target_amount, current_amount),
        r is Err ==> es_interno(r),
        r matches Ok(x) ==> x@ >= 0,
        resta_es_exacta(target_amount, current_amount) ==> (r matches Ok(x) && x@ == if current_amount@
            >= target_amount@ {
            0
        } else {
            target_amount@ - current_amount@
        }),
{
    proof {
        ley_restante_para_meta(target_amount, current_amount);
    }
    let diferencia = match restar(target_amount, current_amount) {
        Some(x) => x,
        None => {
            return Err(error_aritmetico());
        },
    };
    if diferencia.es_negativo() {
        Ok(Monto::cero())
    } else {
        Ok(diferencia)
    }
}

/// Aporte necesario por período: lo que falta para el objetivo (nunca
/// negativo) dividido entre los períodos que quedan hasta la fecha
/// límite.
pub fn proyeccion(target_amount: Monto, current_amount: Monto, hoy: Fecha, deadline: Fecha, periodo: &str) -> (r: Result<ProyeccionMeta, AppError>)
    requires
        target_amount.wf(),
        current_amount.wf(),
        hoy.wf(),
        deadline.wf(),
    ensures
        restante_spec(target_amount, current_amount) is None ==> es_interno(r),
        restante_spec(target_amount, current_amount) is Some && ordinal(deadline) <= ordinal(hoy)
            ==> es_no_procesable(r, "La fecha límite de la meta ya pasó"@),
        r matches Ok(p) ==> {
            &&& p.periodo@ == periodo@
            &&& ordinal(deadline) > ordinal(hoy)
            &&& p.periodos_restantes == periodos_spec(ordinal(deadline) - ordinal(hoy), dias_por_periodo(periodo@))
            &&& Some(p.aporte_necesario) == dec_cociente(
                restante_spec(target_amount, current_amount)->0,
                entero(p.periodos_restantes as int),
            )
        },
        r matches Ok(p) ==> (cociente_es_exacto(
            restante_spec(target_amount, current_amount)->0,
            entero(p.periodos_restantes as int),
        ) ==> p.aporte_necesario@ >= 0 && p.aporte_necesario@ * p.periodos_restantes
            == restante_spec(target_amount, current_amount)->0@),
        r is Ok <==> (restante_spec(target_amount, current_amount) is Some && ordinal(deadline)
            > ordinal(hoy) && dec_cociente(
            restante_spec(target_amount, current_amount)->0,
            entero(periodos_spec(ordinal(deadline) - ordinal(hoy), dias_por_periodo(periodo@))),
        ) is Some),
{
    let restante = restante_para_meta(target_amount, current_amount)?;
    let periodos: i64 = periodos_restantes(hoy, deadline, periodo)?;
    let aporte = match dividir(restante, Monto::desde_entero(periodos)) {
        Some(x) => x,
        None => {
            return Err(error_aritmetico());
        },
    };
    proof {
        if cociente_es_exacto(restante, entero(periodos as int)) {
            assert(periodos >= 1);
            ley_aporte_necesario(target_amount, current_amount, periodos as int);
        }
    }
    Ok(
        ProyeccionMeta {
            periodo: String::from_str(periodo),
            periodos_restantes: periodos,
            aporte_necesario: aporte,
        },
    )
}

} // verus!
