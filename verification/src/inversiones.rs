//! Matemática financiera de las inversiones (SOFIPO): validaciones,
//! rendimiento bruto simple o compuesto, ISR retenido, desglose al
//! vencimiento y el devengo diario que acumula el proceso de fondo.
use crate::decimal::{
    cabe, cociente_opt, dec_cociente, dec_resta, dec_suma, dividir, entero, max_escala,
    op_cociente, op_potencia, op_producto, op_resta, op_suma, potencia_opt, producto_opt,
    resta_opt, restar, suma_opt, sumar, Monto,
};
use crate::errores::{
    error_aritmetico, es_interno, es_no_procesable, no_procesable, AppError,
};
use crate::fecha::{
    es_anterior, lema_rango_ordinal, ordinal, ordinal_de, ordinal_max, ordinal_min, sumar_dias,
    Fecha,
};
use crate::texto::mismo_texto;
use vstd::prelude::*;

verus! {

/// Días con los que se prorratea una tasa anual.
pub const DIAS_POR_ANIO: i64 = 365;

/// `tasa / 100`: de porcentaje a fracción.
pub open spec fn tasa_fraccion(tasa: Monto) -> Option<Monto> {
    dec_cociente(tasa, entero(100))
}

/// `principal * (tasa / 100) * dias / 365`: interés simple, que es
/// también la fórmula del ISR retenido.
pub open spec fn interes_simple(principal: Monto, tasa: Monto, dias: int) -> Option<Monto> {
    op_cociente(
        op_producto(op_producto(Some(principal), tasa_fraccion(tasa)), Some(entero(dias))),
        Some(entero(DIAS_POR_ANIO as int)),
    )
}

/// `1 + (tasa / 100) / 365`: factor de capitalización diaria.
pub open spec fn factor_diario(tasa: Monto) -> Option<Monto> {
    op_suma(Some(entero(1)), op_cociente(tasa_fraccion(tasa), Some(entero(DIAS_POR_ANIO as int))))
}

/// Factor diario elevado a los días del plazo.
pub open spec fn factor_total(tasa: Monto, dias: int) -> Option<Monto> {
    op_potencia(factor_diario(tasa), dias)
}

/// `principal * factor_total - principal`: interés compuesto diario.
pub open spec fn interes_compuesto(principal: Monto, tasa: Monto, dias: int) -> Option<Monto> {
    op_resta(op_producto(Some(principal), factor_total(tasa, dias)), Some(principal))
}

/// Rendimiento bruto según el tipo de interés (`None` si no se puede
/// calcular).
pub open spec fn bruto_spec(principal: Monto, tasa: Monto, dias: int, tipo: Seq<char>) -> Option<
    Monto,
> {
    if tipo == "simple"@ {
        interes_simple(principal, tasa, dias)
    } else {
        interes_compuesto(principal, tasa, dias)
    }
}

/// El interés compuesto falla porque la potencia desborda (plazo o tasa
/// demasiado grandes), no por otra cuenta intermedia.
pub open spec fn falla_potencia(tasa: Monto, dias: int, tipo: Seq<char>) -> bool {
    &&& tipo != "simple"@
    &&& factor_diario(tasa) is Some
    &&& factor_total(tasa, dias) is None
}

pub open spec fn tipo_interes_valido(tipo: Seq<char>) -> bool {
    tipo == "simple"@ || tipo == "compound"@
}

/// Tasa de ISR sugerida: 0.50 % anual (porcentaje, no fracción).
pub fn tasa_retencion_isr_anual() -> (r: Monto)
    ensures
        r.wf(),
        r.mantisa == 50,
        r.escala == 2,
{
    Monto::nuevo(50, 2)
}

/// El tipo de interés debe ser `simple` o `compound`.
pub fn validar_tipo_interes(tipo: &str) -> (r: Result<(), AppError>)
    ensures
        r is Ok <==> tipo_interes_valido(tipo@),
        r is Err ==> es_no_procesable(r, "El tipo de interés debe ser 'simple' o 'compound'"@),
{
    if mismo_texto(tipo, "simple") || mismo_texto(tipo, "compound") {
        Ok(())
    } else {
        Err(no_procesable("El tipo de interés debe ser 'simple' o 'compound'"))
    }
}

/// El capital debe ser mayor a cero.
pub fn validar_principal(monto: Monto) -> (r: Result<(), AppError>)
    requires
        monto.wf(),
    ensures
        r is Ok <==> monto@ > 0,
        r is Err ==> es_no_procesable(r, "El capital debe ser mayor a cero"@),
{
    if monto.es_positivo() {
        Ok(())
    } else {
        Err(no_procesable("El capital debe ser mayor a cero"))
    }
}

/// La tasa GAT anual debe ser mayor a cero.
pub fn validar_tasa(tasa: Monto) -> (r: Result<(), AppError>)
    requires
        tasa.wf(),
    ensures
        r is Ok <==> tasa@ > 0,
        r is Err ==> es_no_procesable(r, "La tasa GAT anual debe ser mayor a cero"@),
{
    if tasa.es_positivo() {
        Ok(())
    } else {
        Err(no_procesable("La tasa GAT anual debe ser mayor a cero"))
    }
}

/// El ISR puede ser 0 (régimen exento); solo se rechaza un valor negativo.
pub fn validar_tasa_isr(tasa: Monto) -> (r: Result<(), AppError>)
    requires
        tasa.wf(),
    ensures
        r is Ok <==> tasa@ >= 0,
        r is Err ==> es_no_procesable(r, "La tasa de ISR no puede ser negativa"@),
{
    if !tasa.es_negativo() {
        Ok(())
    } else {
        Err(no_procesable("La tasa de ISR no puede ser negativa"))
    }
}

/// El plazo en días debe ser mayor a cero.
pub fn validar_plazo(dias: i32) -> (r: Result<(), AppError>)
    ensures
        r is Ok <==> dias > 0,
        r is Err ==> es_no_procesable(r, "El plazo en días debe ser mayor a cero"@),
{
    if dias > 0 {
        Ok(())
    } else {
        Err(no_procesable("El plazo en días debe ser mayor a cero"))
    }
}

/// Los datos financieros de una inversión (real o simulada) son válidos.
pub open spec fn datos_inversion_validos(
    tipo: Seq<char>,
    principal: Monto,
    gat: Monto,
    isr: Monto,
    dias: int,
) -> bool {
    &&& tipo_interes_valido(tipo)
    &&& principal@ > 0
    &&& gat@ > 0
    &&& isr@ >= 0
    &&& dias > 0
}

/// Las validaciones de alta, edición y simulación, en el mismo orden:
/// tipo de interés, capital, tasa GAT, tasa de ISR y plazo.
pub fn validar_datos_inversion(
    tipo: &str,
    principal: Monto,
    gat: Monto,
    isr: Monto,
    dias: i32,
) -> (r: Result<(), AppError>)
    requires
        principal.wf(),
        gat.wf(),
        isr.wf(),
    ensures
        r is Ok <==> datos_inversion_validos(tipo@, principal, gat, isr, dias as int),
        !tipo_interes_valido(tipo@) ==> es_no_procesable(
            r,
            "El tipo de interés debe ser 'simple' o 'compound'"@,
        ),
        tipo_interes_valido(tipo@) && principal@ <= 0 ==> es_no_procesable(
            r,
            "El capital debe ser mayor a cero"@,
        ),
        tipo_interes_valido(tipo@) && principal@ > 0 && gat@ <= 0 ==> es_no_procesable(
            r,
            "La tasa GAT anual debe ser mayor a cero"@,
        ),
        tipo_interes_valido(tipo@) && principal@ > 0 && gat@ > 0 && isr@ < 0 ==> es_no_procesable(
            r,
            "La tasa de ISR no puede ser negativa"@,
        ),
        tipo_interes_valido(tipo@) && principal@ > 0 && gat@ > 0 && isr@ >= 0 && dias <= 0
            ==> es_no_procesable(r, "El plazo en días debe ser mayor a cero"@),
{
    validar_tipo_interes(tipo)?;
    validar_principal(principal)?;
    validar_tasa(gat)?;
    validar_tasa_isr(isr)?;
    validar_plazo(dias)?;
    Ok(())
}

/// Interés generado por el capital durante `term_days`, sin ISR: simple
/// (lineal sobre el capital) o compuesto (capitalización diaria).
///
/// Si la potencia del interés compuesto desborda, el plazo o la tasa son
/// demasiado grandes (422); cualquier otra cuenta que desborde es un
/// error interno.
pub fn rendimiento_bruto(principal: Monto, gat_annual_rate: Monto, term_days: i32, interest_type: &str) -> (r: Result<Monto, AppError>)
    requires
        principal.wf(),
        gat_annual_rate.wf(),
        tipo_interes_valido(interest_type@),
    ensures
        r matches Ok(x) ==> x.wf() && bruto_spec(principal, gat_annual_rate, term_days as int, interest_type@) == Some(x),
        r is Err <==> bruto_spec(principal, gat_annual_rate, term_days as int, interest_type@) is None,
        falla_potencia(gat_annual_rate, term_days as int, interest_type@) ==> es_no_procesable(
            r,
            "El plazo o la tasa son demasiado grandes para calcular el interés compuesto"@,
        ),
        r is Err && !falla_potencia(gat_annual_rate, term_days as int, interest_type@)
            ==> es_interno(r),
{
    let tasa = dividir(gat_annual_rate, Monto::desde_entero(100));
    let dias = Monto::desde_entero(term_days as i64);
    let anio = Monto::desde_entero(DIAS_POR_ANIO);
    if mismo_texto(interest_type, "simple") {
        let bruto = cociente_opt(producto_opt(producto_opt(Some(principal), tasa), Some(dias)), Some(anio));
        match bruto {
            Some(x) => Ok(x),
            None => Err(error_aritmetico()),
        }
    } else {
        let factor_dia = suma_opt(Some(Monto::desde_entero(1)), cociente_opt(tasa, Some(anio)));
        if factor_dia.is_none() {
            return Err(error_aritmetico());
        }
        let factor = potencia_opt(factor_dia, term_days as i64);
        if factor.is_none() {
            return Err(
                no_procesable(
                    "El plazo o la tasa son demasiado grandes para calcular el interés compuesto",
                ),
            );
        }
        match resta_opt(producto_opt(Some(principal), factor), Some(principal)) {
            Some(x) => Ok(x),
            None => Err(error_aritmetico()),
        }
    }
}

/// ISR retenido sobre el capital, prorrateado por los días de la
/// inversión: `principal * (tasa / 100) * dias / 365`.
pub fn isr_retenido(principal: Monto, term_days: i32, isr_annual_rate: Monto) -> (r: Result<Monto, AppError>)
    requires
        principal.wf(),
        isr_annual_rate.wf(),
    ensures
        r matches Ok(x) ==> x.wf() && interes_simple(principal, isr_annual_rate, term_days as int) == Some(x),
        r is Err <==> interes_simple(principal, isr_annual_rate, term_days as int) is None,
        r is Err ==> es_interno(r),
{
    let tasa = dividir(isr_annual_rate, Monto::desde_entero(100));
    let dias = Monto::desde_entero(term_days as i64);
    let anio = Monto::desde_entero(DIAS_POR_ANIO);
    match cociente_opt(producto_opt(producto_opt(Some(principal), tasa), Some(dias)), Some(anio)) {
        Some(x) => Ok(x),
        None => Err(error_aritmetico()),
    }
}

/// Desglose de rendimiento bruto, ISR retenido y neto de una inversión.
#[derive(Debug)]
pub struct DesgloseRendimiento {
    pub principal: Monto,
    pub gat_annual_rate: Monto,
    pub interest_type: String,
    pub term_days: i32,
    pub gross_yield: Monto,
    pub isr_amount: Monto,
    pub net_yield: Monto,
    pub maturity_amount: Monto,
}

/// Todas las cuentas del desglose se pueden hacer.
pub open spec fn desglose_definido(
    principal: Monto,
    gat: Monto,
    tipo: Seq<char>,
    dias: int,
    isr: Monto,
) -> bool {
    let bruto = bruto_spec(principal, gat, dias, tipo);
    let retenido = interes_simple(principal, isr, dias);
    let neto = op_resta(bruto, retenido);
    &&& bruto is Some
    &&& retenido is Some
    &&& neto is Some
    &&& op_suma(Some(principal), neto) is Some
}

/// Desglose completo (bruto, ISR, neto y monto al vencimiento) a partir
/// de los datos financieros de una inversión, real o simulada.
pub fn calcular_desglose(
    principal: Monto,
    gat_annual_rate: Monto,
    interest_type: &str,
    term_days: i32,
    isr_annual_rate: Monto,
) -> (r: Result<DesgloseRendimiento, AppError>)
    requires
        principal.wf(),
        gat_annual_rate.wf(),
        isr_annual_rate.wf(),
        tipo_interes_valido(interest_type@),
    ensures
        r is Ok <==> desglose_definido(principal, gat_annual_rate, interest_type@, term_days as int, isr_annual_rate),
        r matches Ok(d) ==> {
            &&& d.principal == principal
            &&& d.gat_annual_rate == gat_annual_rate
            &&& d.interest_type@ == interest_type@
            &&& d.term_days == term_days
            &&& Some(d.gross_yield) == bruto_spec(principal, gat_annual_rate, term_days as int, interest_type@)
            &&& Some(d.isr_amount) == interes_simple(principal, isr_annual_rate, term_days as int)
            &&& Some(d.net_yield) == dec_resta(d.gross_yield, d.isr_amount)
            &&& Some(d.maturity_amount) == dec_suma(principal, d.net_yield)
            &&& cabe(d.gross_yield@ - d.isr_amount@, max_escala(d.gross_yield, d.isr_amount))
                ==> d.net_yield@ == d.gross_yield@ - d.isr_amount@
            &&& cabe(principal@ + d.net_yield@, max_escala(principal, d.net_yield))
                ==> d.maturity_amount@ == principal@ + d.net_yield@
        },
        falla_potencia(gat_annual_rate, term_days as int, interest_type@) ==> es_no_procesable(
            r,
            "El plazo o la tasa son demasiado grandes para calcular el interés compuesto"@,
        ),
        r is Err && !falla_potencia(gat_annual_rate, term_days as int, interest_type@)
            ==> es_interno(r),
{
    let bruto = rendimiento_bruto(principal, gat_annual_rate, term_days, interest_type)?;
    let isr = isr_retenido(principal, term_days, isr_annual_rate)?;
    let neto = match restar(bruto, isr) {
        Some(x) => x,
        None => {
            return Err(error_aritmetico());
        },
    };
    let al_vencimiento = match sumar(principal, neto) {
        Some(x) => x,
        None => {
            return Err(error_aritmetico());
        },
    };
    Ok(
        DesgloseRendimiento {
            principal,
            gat_annual_rate,
            interest_type: String::from_str(interest_type),
            term_days,
            gross_yield: bruto,
            isr_amount: isr,
            net_yield: neto,
            maturity_amount: al_vencimiento,
        },
    )
}

/// Fecha de vencimiento: `start_date + term_days` días. Un plazo que
/// produce una fecha fuera de rango (o negativo) es inválido.
pub fn fecha_vencimiento(start_date: Fecha, term_days: i32) -> (r: Result<Fecha, AppError>)
    requires
        start_date.wf(),
    ensures
        r matches Ok(f) ==> f.wf() && term_days >= 0 && ordinal(f) == ordinal(start_date) + term_days,
        r is Ok <==> term_days >= 0 && ordinal(start_date) + term_days <= ordinal_max(),
        r is Err ==> es_no_procesable(r, "El plazo produce una fecha inválida"@),
{
    if term_days < 0 {
        return Err(no_procesable("El plazo produce una fecha inválida"));
    }
    proof {
        lema_rango_ordinal();
    }
    match sumar_dias(start_date, term_days as i64) {
        Some(f) => Ok(f),
        None => Err(no_procesable("El plazo produce una fecha inválida")),
    }
}


/// Datos financieros de una inversión activa que el proceso diario
/// necesita para devengar su rendimiento.
#[derive(Debug)]
pub struct InversionActiva {
    pub principal: Monto,
    pub gat_annual_rate: Monto,
    pub isr_annual_rate: Monto,
    pub interest_type: String,
    pub start_date: Fecha,
    pub end_date: Fecha,
}

impl InversionActiva {
    pub open spec fn wf(&self) -> bool {
        &&& self.principal.wf()
        &&& self.gat_annual_rate.wf()
        &&& self.isr_annual_rate.wf()
        &&& tipo_interes_valido(self.interest_type@)
        &&& self.start_date.wf()
        &&& self.end_date.wf()
    }
}

/// Rendimiento bruto, ISR y neto de un día.
#[derive(Debug)]
pub struct Devengo {
    pub fecha: Fecha,
    pub gross_yield: Monto,
    pub isr_amount: Monto,
    pub net_yield: Monto,
}

/// Resultado del devengo de un día: calculado, u omitido porque alguna
/// cuenta no se pudo hacer (por ejemplo, el interés compuesto desborda).
#[derive(Debug)]
pub enum DiaDevengo {
    Calculado(Devengo),
    Omitido(Fecha),
}

/// Devengo del día en que la inversión cumple `dias` días: la diferencia
/// entre lo acumulado en `dias` y en `dias - 1`, tanto del bruto como del
/// ISR, y el neto como bruto menos ISR.
pub open spec fn devengo_spec(inv: InversionActiva, dias: int) -> Option<(Monto, Monto, Monto)> {
    let tipo = inv.interest_type@;
    let bruto = op_resta(
        bruto_spec(inv.principal, inv.gat_annual_rate, dias, tipo),
        bruto_spec(inv.principal, inv.gat_annual_rate, dias - 1, tipo),
    );
    let isr = op_resta(
        interes_simple(inv.principal, inv.isr_annual_rate, dias),
        interes_simple(inv.principal, inv.isr_annual_rate, dias - 1),
    );
    let neto = op_resta(bruto, isr);
    if bruto is Some && isr is Some && neto is Some {
        Some((bruto->0, isr->0, neto->0))
    } else {
        None
    }
}

pub open spec fn fecha_de_dia(d: DiaDevengo) -> Fecha {
    match d {
        DiaDevengo::Calculado(x) => x.fecha,
        DiaDevengo::Omitido(f) => f,
    }
}

/// `d` es el devengo del día `fecha`, en que la inversión cumple `dias` días.
pub open spec fn es_devengo_del_dia(inv: InversionActiva, d: DiaDevengo, fecha: Fecha, dias: int) -> bool {
    match d {
        DiaDevengo::Calculado(x) => x.fecha == fecha && devengo_spec(inv, dias) == Some(
            (x.gross_yield, x.isr_amount, x.net_yield),
        ),
        DiaDevengo::Omitido(f) => f == fecha && devengo_spec(inv, dias) is None,
    }
}

/// Devengo de un día concreto.
pub fn devengo_del_dia(inv: &InversionActiva, fecha: Fecha, dias: i32) -> (r: DiaDevengo)
    requires
        inv.wf(),
        dias > i32::MIN,
    ensures
        es_devengo_del_dia(*inv, r, fecha, dias as int),
{
    let tipo = inv.interest_type.as_str();
    let bruto_hoy = rendimiento_bruto(inv.principal, inv.gat_annual_rate, dias, tipo);
    let bruto_ayer = rendimiento_bruto(inv.principal, inv.gat_annual_rate, dias - 1, tipo);
    let isr_hoy = isr_retenido(inv.principal, dias, inv.isr_annual_rate);
    let isr_ayer = isr_retenido(inv.principal, dias - 1, inv.isr_annual_rate);
    match (bruto_hoy, bruto_ayer, isr_hoy, isr_ayer) {
        (Ok(bh), Ok(ba), Ok(ih), Ok(ia)) => {
            let bruto = restar(bh, ba);
            let isr = restar(ih, ia);
            let neto = resta_opt(bruto, isr);
            match (bruto, isr, neto) {
                (Some(gross_yield), Some(isr_amount), Some(net_yield)) => DiaDevengo::Calculado(
                    Devengo { fecha, gross_yield, isr_amount, net_yield },
                ),
                _ => DiaDevengo::Omitido(fecha),
            }
        },
        _ => DiaDevengo::Omitido(fecha),
    }
}

/// Primer día todavía sin devengar: el siguiente al último ya guardado o,
/// si no hay ninguno, el día de inicio.
pub open spec fn primer_dia_pendiente(inv: InversionActiva, ultima: Option<Fecha>) -> int {
    match ultima {
        Some(u) => ordinal(u) + 1,
        None => ordinal(inv.start_date),
    }
}

/// Último día a devengar: hoy o el vencimiento, lo que ocurra antes.
pub open spec fn ultimo_dia_a_devengar(inv: InversionActiva, hoy: Fecha) -> int {
    if ordinal(hoy) <= ordinal(inv.end_date) {
        ordinal(hoy)
    } else {
        ordinal(inv.end_date)
    }
}

/// Los días de una lista de devengos que empieza en el primer día
/// pendiente y llega hasta el último a devengar caen todos dentro del
/// plazo: después de lo ya devengado, no antes del inicio, y nunca
/// después de hoy ni del vencimiento.
pub proof fn ley_devengos_en_plazo(inv: InversionActiva, ultima: Option<Fecha>, hoy: Fecha, r: Seq<DiaDevengo>)
    requires
        r.len() == if ultimo_dia_a_devengar(inv, hoy) >= primer_dia_pendiente(inv, ultima) {
            ultimo_dia_a_devengar(inv, hoy) - primer_dia_pendiente(inv, ultima) + 1
        } else {
            0
        },
        forall|k: int|
            0 <= k < r.len() ==> ordinal(#[trigger] fecha_de_dia(r[k])) == primer_dia_pendiente(inv, ultima) + k,
    ensures
        forall|k: int|
            0 <= k < r.len() ==> {
                let f = #[trigger] fecha_de_dia(r[k]);
                &&& ordinal(f) <= ordinal(inv.end_date)
                &&& ordinal(f) <= ordinal(hoy)
                &&& (ultima matches Some(u) ==> ordinal(f) > ordinal(u))
                &&& (ultima is None ==> ordinal(f) >= ordinal(inv.start_date))
            },
        (ultima matches Some(u) && ordinal(u) >= ordinal(inv.end_date)) ==> r.len() == 0,
        ordinal(hoy) < ordinal(inv.start_date) ==> (ultima is None ==> r.len() == 0),
{
}

/// Devengos de cada día pendiente de una inversión, desde el último ya
/// calculado (`ultima`) hasta `hoy` o su vencimiento, lo que sea menor.
/// Cada día se obtiene como la diferencia entre lo acumulado en
/// `dias` y en `dias - 1`, así que sirve igual para interés simple que
/// compuesto.
#[verifier::rlimit(40)]
pub fn devengos_pendientes(inv: &InversionActiva, ultima: Option<Fecha>, hoy: Fecha) -> (r: Vec<DiaDevengo>)
    requires
        inv.wf(),
        hoy.wf(),
        ultima matches Some(u) ==> u.wf(),
        ultima is None ==> ordinal(inv.start_date) > ordinal_min(),
        ordinal(hoy) < ordinal_max(),
    ensures
        r.len() == if ultimo_dia_a_devengar(*inv, hoy) >= primer_dia_pendiente(*inv, ultima) {
            ultimo_dia_a_devengar(*inv, hoy) - primer_dia_pendiente(*inv, ultima) + 1
        } else {
            0
        },
        forall|k: int|
            0 <= k < r.len() ==> {
                let f = #[trigger] fecha_de_dia(r[k]);
                &&& f.wf()
                &&& ordinal(f) == primer_dia_pendiente(*inv, ultima) + k
                &&& es_devengo_del_dia(*inv, r[k], f, ordinal(f) - ordinal(inv.start_date) + 1)
            },
        forall|k: int|
            0 <= k < r.len() ==> {
                let f = #[trigger] fecha_de_dia(r[k]);
                &&& ordinal(f) <= ordinal(inv.end_date)
                &&& ordinal(f) <= ordinal(hoy)
                &&& (ultima matches Some(u) ==> ordinal(f) > ordinal(u))
                &&& (ultima is None ==> ordinal(f) >= ordinal(inv.start_date))
            },
        (ultima matches Some(u) && ordinal(u) >= ordinal(inv.end_date)) ==> r.len() == 0,
        ordinal(hoy) < ordinal(inv.start_date) ==> (ultima is None ==> r.len() == 0),
{
    proof {
        lema_rango_ordinal();
    }
    let mut r: Vec<DiaDevengo> = Vec::new();
    let limite = if es_anterior(inv.end_date, hoy) {
        inv.end_date
    } else {
        hoy
    };
    let ultima_fecha = match ultima {
        Some(u) => u,
        None => sumar_dias(inv.start_date, -1).unwrap(),
    };
    if !es_anterior(ultima_fecha, limite) {
        proof {
            ley_devengos_en_plazo(*inv, ultima, hoy, r@);
        }
        return r;
    }
    let mut fecha = sumar_dias(ultima_fecha, 1).unwrap();
    let inicio: i32 = ordinal_de(inv.start_date);
    let fin: i32 = ordinal_de(limite);
    let ghost d0: int = primer_dia_pendiente(*inv, ultima);
    while ordinal_de(fecha) <= fin
        invariant
            inv.wf(),
            fecha.wf(),
            inicio == ordinal(inv.start_date),
            fin == ultimo_dia_a_devengar(*inv, hoy),
            fin < ordinal_max(),
            d0 <= fin,
            ordinal(fecha) == d0 + r.len(),
            ordinal(fecha) <= fin + 1,
            d0 == primer_dia_pendiente(*inv, ultima),
            ordinal_min() <= d0,
            forall|k: int|
                0 <= k < r.len() ==> {
                    let f = #[trigger] fecha_de_dia(r[k]);
                    &&& f.wf()
                    &&& ordinal(f) == d0 + k
                    &&& es_devengo_del_dia(*inv, r[k], f, ordinal(f) - ordinal(inv.start_date) + 1)
                },
        decreases fin + 1 - ordinal(fecha),
    {
        let dias: i32 = ordinal_de(fecha) - inicio + 1;
        let dia = devengo_del_dia(inv, fecha, dias);
        let ghost anterior = r@;
        r.push(dia);
        assert(forall|k: int| 0 <= k < anterior.len() ==> r@[k] == anterior[k]);
        fecha = sumar_dias(fecha, 1).unwrap();
    }
    proof {
        ley_devengos_en_plazo(*inv, ultima, hoy, r@);
    }
    r
}


/// Bruto de un día devengado (cero si se omitió).
pub open spec fn bruto_del_dia(d: DiaDevengo) -> int {
    match d {
        DiaDevengo::Calculado(x) => x.gross_yield@,
        DiaDevengo::Omitido(_) => 0,
    }
}

/// ISR de un día devengado (cero si se omitió).
pub open spec fn isr_del_dia(d: DiaDevengo) -> int {
    match d {
        DiaDevengo::Calculado(x) => x.isr_amount@,
        DiaDevengo::Omitido(_) => 0,
    }
}

/// Suma de los brutos de los primeros `n` días.
pub open spec fn suma_bruta(ds: Seq<DiaDevengo>, n: nat) -> int
    decreases n,
{
    if n == 0 {
        0
    } else {
        suma_bruta(ds, (n - 1) as nat) + bruto_del_dia(ds[n - 1])
    }
}

/// Suma de los ISR de los primeros `n` días.
pub open spec fn suma_isr(ds: Seq<DiaDevengo>, n: nat) -> int
    decreases n,
{
    if n == 0 {
        0
    } else {
        suma_isr(ds, (n - 1) as nat) + isr_del_dia(ds[n - 1])
    }
}

/// `a - b` está definida y es exacta (sin redondeo).
pub open spec fn resta_exacta(a: Option<Monto>, b: Option<Monto>) -> bool {
    &&& a is Some
    &&& b is Some
    &&& op_resta(a, b) matches Some(r) && r@ == a->0@ - b->0@
}

/// La aritmética de los días `1..=n` de una inversión es exacta: el bruto
/// y el ISR acumulados al día 0 valen cero, cada día se puede devengar y
/// las diferencias entre días consecutivos no redondean.
pub open spec fn devengo_exacto(inv: InversionActiva, n: int) -> bool {
    let t = inv.interest_type@;
    &&& bruto_spec(inv.principal, inv.gat_annual_rate, 0, t) matches Some(b0) && b0@ == 0
    &&& interes_simple(inv.principal, inv.isr_annual_rate, 0) matches Some(i0) && i0@ == 0
    &&& forall|d: int|
        1 <= d <= n ==> {
            &&& #[trigger] devengo_spec(inv, d) is Some
            &&& resta_exacta(
                bruto_spec(inv.principal, inv.gat_annual_rate, d, t),
                bruto_spec(inv.principal, inv.gat_annual_rate, d - 1, t),
            )
            &&& resta_exacta(
                interes_simple(inv.principal, inv.isr_annual_rate, d),
                interes_simple(inv.principal, inv.isr_annual_rate, d - 1),
            )
        }
}

proof fn lema_sumas_parciales(inv: InversionActiva, ds: Seq<DiaDevengo>, m: nat)
    requires
        m <= ds.len(),
        devengo_exacto(inv, ds.len() as int),
        forall|k: int| 0 <= k < ds.len() ==> es_devengo_del_dia(inv, #[trigger] ds[k], fecha_de_dia(ds[k]), k + 1),
    ensures
        forall|k: int| 0 <= k < m ==> #[trigger] ds[k] is Calculado,
        bruto_spec(inv.principal, inv.gat_annual_rate, m as int, inv.interest_type@) matches Some(b)
            && suma_bruta(ds, m) == b@,
        interes_simple(inv.principal, inv.isr_annual_rate, m as int) matches Some(i)
            && suma_isr(ds, m) == i@,
    decreases m,
{
    if m > 0 {
        lema_sumas_parciales(inv, ds, (m - 1) as nat);
        let d: int = m as int;
        assert(devengo_spec(inv, d) is Some);
        assert(es_devengo_del_dia(inv, ds[d - 1], fecha_de_dia(ds[d - 1]), d));
    }
}

/// Desde el primer día de una inversión, los devengos diarios suman lo
/// acumulado: con aritmética exacta, los brutos de los `n` días suman el
/// rendimiento bruto de `n` días, los ISR suman el ISR de `n` días, y
/// ningún día queda omitido.
pub proof fn ley_devengos_suman(inv: InversionActiva, ds: Seq<DiaDevengo>)
    requires
        inv.wf(),
        devengo_exacto(inv, ds.len() as int),
        forall|k: int| 0 <= k < ds.len() ==> es_devengo_del_dia(inv, #[trigger] ds[k], fecha_de_dia(ds[k]), k + 1),
    ensures
        forall|k: int| 0 <= k < ds.len() ==> #[trigger] ds[k] is Calculado,
        bruto_spec(inv.principal, inv.gat_annual_rate, ds.len() as int, inv.interest_type@) matches Some(b)
            && suma_bruta(ds, ds.len()) == b@,
        interes_simple(inv.principal, inv.isr_annual_rate, ds.len() as int) matches Some(i)
            && suma_isr(ds, ds.len()) == i@,
{
    lema_sumas_parciales(inv, ds, ds.len());
}

/// Un rendimiento registrado a mano debe ser mayor a cero.
pub fn validar_rendimiento(yield_amount: Monto) -> (r: Result<(), AppError>)
    requires
        yield_amount.wf(),
    ensures
        r is Ok <==> yield_amount@ > 0,
        r is Err ==> es_no_procesable(r, "El rendimiento debe ser mayor a cero"@),
{
    if yield_amount.es_positivo() {
        Ok(())
    } else {
        Err(no_procesable("El rendimiento debe ser mayor a cero"))
    }
}

} // verus!
