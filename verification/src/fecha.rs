//! Fechas de calendario (gregoriano proléptico) y la aritmética de días
//! y meses que usan cuentas, suscripciones, metas, inversiones y
//! analítica.
//!
//! `Fecha` guarda año, mes y día como números; las operaciones de
//! calendario las hace `chrono::NaiveDate`. `ordinal(f)` es el número de
//! día contado desde el 1 de enero del año 1 (día 1), el mismo que
//! `NaiveDate::num_days_from_ce`: sumar días o comparar fechas es
//! aritmética sobre ordinales.
use chrono::{Datelike, Months, NaiveDate};
use vstd::prelude::*;
use crate::texto::{relleno_ceros, dos_digitos};

verus! {

/// Primer año que representa `NaiveDate`.
pub const ANIO_MIN: i32 = -262143;

/// Último año que representa `NaiveDate`.
pub const ANIO_MAX: i32 = 262142;

pub open spec fn es_bisiesto(a: int) -> bool {
    (a % 4 == 0 && a % 100 != 0) || a % 400 == 0
}

/// Días que tiene el mes `m` (1-12) del año `a`.
pub open spec fn dias_del_mes(a: int, m: int) -> int {
    if m == 2 {
        if es_bisiesto(a) {
            29
        } else {
            28
        }
    } else if m == 4 || m == 6 || m == 9 || m == 11 {
        30
    } else {
        31
    }
}

/// `(a, m, d)` es un día que existe y que `NaiveDate` representa.
pub open spec fn es_fecha(a: int, m: int, d: int) -> bool {
    &&& ANIO_MIN <= a <= ANIO_MAX
    &&& 1 <= m <= 12
    &&& 1 <= d <= dias_del_mes(a, m)
}

/// Día del calendario.
#[derive(Clone, Copy, Debug, PartialEq, Eq, Structural)]
pub struct Fecha {
    pub anio: i32,
    pub mes: u32,
    pub dia: u32,
}

impl Fecha {
    pub open spec fn wf(self) -> bool {
        es_fecha(self.anio as int, self.mes as int, self.dia as int)
    }
}

/// Días de los años anteriores a `a`, contados desde el año 1.
pub open spec fn dias_antes_del_anio(a: int) -> int {
    let p = a - 1;
    365 * p + p / 4 - p / 100 + p / 400
}

/// Días del año `a` anteriores al mes `m`.
pub open spec fn dias_antes_del_mes(a: int, m: int) -> int {
    let base: int = if m == 1 {
        0
    } else if m == 2 {
        31
    } else if m == 3 {
        59
    } else if m == 4 {
        90
    } else if m == 5 {
        120
    } else if m == 6 {
        151
    } else if m == 7 {
        181
    } else if m == 8 {
        212
    } else if m == 9 {
        243
    } else if m == 10 {
        273
    } else if m == 11 {
        304
    } else {
        334
    };
    if m > 2 && es_bisiesto(a) {
        base + 1
    } else {
        base
    }
}

/// Número de día desde el 1 de enero del año 1 (que es el día 1).
pub open spec fn ordinal_ymd(a: int, m: int, d: int) -> int {
    dias_antes_del_anio(a) + dias_antes_del_mes(a, m) + d
}

pub open spec fn ordinal(f: Fecha) -> int {
    ordinal_ymd(f.anio as int, f.mes as int, f.dia as int)
}

pub open spec fn ordinal_min() -> int {
    ordinal_ymd(ANIO_MIN as int, 1, 1)
}

pub open spec fn ordinal_max() -> int {
    ordinal_ymd(ANIO_MAX as int, 12, 31)
}

/// El día anterior, o `None` en el primer día representable.
pub open spec fn dia_anterior_spec(f: Fecha) -> Option<Fecha> {
    if f.dia > 1 {
        Some(Fecha { anio: f.anio, mes: f.mes, dia: (f.dia - 1) as u32 })
    } else if f.mes > 1 {
        Some(
            Fecha {
                anio: f.anio,
                mes: (f.mes - 1) as u32,
                dia: dias_del_mes(f.anio as int, f.mes - 1) as u32,
            },
        )
    } else if f.anio > ANIO_MIN {
        Some(Fecha { anio: (f.anio - 1) as i32, mes: 12, dia: 31 })
    } else {
        None
    }
}

/// Año y mes que resultan de avanzar `n` meses desde `(a, m)`.
pub open spec fn mes_total(a: int, m: int, n: int) -> int {
    a * 12 + (m - 1) + n
}

pub open spec fn min_int(x: int, y: int) -> int {
    if x <= y {
        x
    } else {
        y
    }
}

/// `f` avanzada `n` meses calendario; si el día no existe en el mes de
/// destino se usa el último día de ese mes.
pub open spec fn sumar_meses_spec(f: Fecha, n: int) -> Option<Fecha> {
    let t = mes_total(f.anio as int, f.mes as int, n);
    let a = t / 12;
    let m = t % 12 + 1;
    let d = min_int(f.dia as int, dias_del_mes(a, m));
    if ANIO_MIN <= a <= ANIO_MAX {
        Some(Fecha { anio: a as i32, mes: m as u32, dia: d as u32 })
    } else {
        None
    }
}

/// `NaiveDate::from_ymd_opt`: la fecha si `(anio, mes, dia)` existe y
/// está en el rango de `NaiveDate`.
#[verifier::external_body]
pub(crate) fn fecha_desde_ymd(anio: i32, mes: u32, dia: u32) -> (r: Option<Fecha>)
    ensures
        r == (if es_fecha(anio as int, mes as int, dia as int) {
            Some(Fecha { anio, mes, dia })
        } else {
            None
        }),
{
    NaiveDate::from_ymd_opt(anio, mes, dia).map(|d| Fecha { anio: d.year(), mes: d.month(), dia: d.day() })
}

/// `NaiveDate::num_days_from_ce`: días desde el 1 de enero del año 1
/// (día 1) en el calendario gregoriano proléptico.
#[verifier::external_body]
pub(crate) fn ordinal_de(f: Fecha) -> (r: i32)
    requires
        f.wf(),
    ensures
        r == ordinal(f),
{
    NaiveDate::from_ymd_opt(f.anio, f.mes, f.dia).unwrap().num_days_from_ce()
}

/// `NaiveDate::from_num_days_from_ce_opt`: la fecha con ese ordinal, o
/// `None` fuera del rango de `NaiveDate`.
#[verifier::external_body]
pub(crate) fn fecha_desde_ordinal(n: i32) -> (r: Option<Fecha>)
    ensures
        r matches Some(f) ==> f.wf() && ordinal(f) == n,
        r is None <==> (n < ordinal_min() || n > ordinal_max()),
{
    NaiveDate::from_num_days_from_ce_opt(n).map(|d| Fecha { anio: d.year(), mes: d.month(), dia: d.day() })
}

/// `NaiveDate::pred_opt`: el día anterior.
#[verifier::external_body]
pub(crate) fn dia_anterior(f: Fecha) -> (r: Option<Fecha>)
    requires
        f.wf(),
    ensures
        r == dia_anterior_spec(f),
{
    NaiveDate::from_ymd_opt(f.anio, f.mes, f.dia).unwrap().pred_opt().map(|d| Fecha { anio: d.year(), mes: d.month(), dia: d.day() })
}

/// `Datelike::with_day`: la misma fecha con otro día del mes, si existe.
#[verifier::external_body]
pub(crate) fn con_dia(f: Fecha, dia: u32) -> (r: Option<Fecha>)
    requires
        f.wf(),
    ensures
        r == (if 1 <= dia <= dias_del_mes(f.anio as int, f.mes as int) {
            Some(Fecha { anio: f.anio, mes: f.mes, dia })
        } else {
            None
        }),
{
    NaiveDate::from_ymd_opt(f.anio, f.mes, f.dia).unwrap().with_day(dia).map(|d| Fecha { anio: d.year(), mes: d.month(), dia: d.day() })
}

/// `NaiveDate::checked_add_months`: avanza `n` meses calendario,
/// ajustando al último día del mes si hace falta.
#[verifier::external_body]
pub(crate) fn sumar_meses_calendario(f: Fecha, n: u32) -> (r: Option<Fecha>)
    requires
        f.wf(),
    ensures
        r == sumar_meses_spec(f, n as int),
{
    NaiveDate::from_ymd_opt(f.anio, f.mes, f.dia).unwrap().checked_add_months(Months::new(n)).map(|d| Fecha { anio: d.year(), mes: d.month(), dia: d.day() })
}

/// `weekday().num_days_from_monday()`: 0 el lunes, 6 el domingo. El 1 de
/// enero del año 1 fue lunes.
#[verifier::external_body]
pub(crate) fn dias_desde_lunes(f: Fecha) -> (r: u32)
    requires
        f.wf(),
    ensures
        r == (ordinal(f) - 1) % 7,
{
    NaiveDate::from_ymd_opt(f.anio, f.mes, f.dia).unwrap().weekday().num_days_from_monday()
}


pub proof fn lema_rango_ordinal()
    ensures
        ordinal_min() == -95746129,
        ordinal_max() == 95745399,
{
}

/// El primer día de un mes sigue al último del mes anterior.
pub proof fn lema_mes_siguiente(a: int, m: int)
    requires
        1 <= m < 12,
    ensures
        dias_antes_del_mes(a, m + 1) == dias_antes_del_mes(a, m) + dias_del_mes(a, m),
{
}

/// Un año tiene 365 días, o 366 si es bisiesto.
pub proof fn lema_anio_siguiente(a: int)
    ensures
        dias_antes_del_anio(a + 1) == dias_antes_del_anio(a) + (if es_bisiesto(a) {
            366int
        } else {
            365int
        }),
        dias_antes_del_mes(a, 12) + 31 == (if es_bisiesto(a) {
            366int
        } else {
            365int
        }),
{
    let p: int = a - 1;
    assert((p + 1) / 4 - p / 4 == (if a % 4 == 0 {
        1int
    } else {
        0int
    }));
    assert((p + 1) / 100 - p / 100 == (if a % 100 == 0 {
        1int
    } else {
        0int
    }));
    assert((p + 1) / 400 - p / 400 == (if a % 400 == 0 {
        1int
    } else {
        0int
    }));
}

/// Mes siguiente a `(a, m)`.
pub open spec fn siguiente_mes(a: int, m: int) -> (int, int) {
    if m == 12 {
        (a + 1, 1)
    } else {
        (a, m + 1)
    }
}

/// El día 1 del mes siguiente viene justo después del último día del mes.
pub proof fn lema_fin_de_mes(a: int, m: int)
    requires
        1 <= m <= 12,
    ensures
        ordinal_ymd(siguiente_mes(a, m).0, siguiente_mes(a, m).1, 1) == ordinal_ymd(
            a,
            m,
            dias_del_mes(a, m),
        ) + 1,
{
    if m == 12 {
        lema_anio_siguiente(a);
    } else {
        lema_mes_siguiente(a, m);
    }
}

impl Fecha {
    /// La fecha `anio-mes-dia`, si existe en el calendario y en el rango
    /// de `NaiveDate`.
    pub fn nueva(anio: i32, mes: u32, dia: u32) -> (r: Option<Fecha>)
        ensures
            r == (if es_fecha(anio as int, mes as int, dia as int) {
                Some(Fecha { anio, mes, dia })
            } else {
                None
            }),
    {
        fecha_desde_ymd(anio, mes, dia)
    }
}

/// La misma fecha en el día 1 de su mes (la convención de `month`).
pub fn primer_dia_del_mes(f: Fecha) -> (r: Fecha)
    requires
        f.wf(),
    ensures
        r == (Fecha { anio: f.anio, mes: f.mes, dia: 1 }),
        r.wf(),
{
    con_dia(f, 1).unwrap()
}

/// Último día real (28-31) del mes `mes` de `anio`: el día anterior al
/// primero del mes siguiente. Con `mes == 0` ese "mes siguiente" es
/// enero y el resultado es 31 (el 31 de diciembre del año anterior).
pub fn ultimo_dia_del_mes(anio: i32, mes: u32) -> (r: u32)
    requires
        mes <= 12,
        ANIO_MIN <= anio <= ANIO_MAX,
        mes == 12 ==> anio < ANIO_MAX,
        mes == 0 ==> anio > ANIO_MIN,
    ensures
        r == (if mes == 0 {
            31
        } else {
            dias_del_mes(anio as int, mes as int)
        }),
{
    let (anio_siguiente, mes_siguiente): (i32, u32) = if mes == 12 {
        (anio + 1, 1)
    } else {
        (anio, mes + 1)
    };
    let primero = fecha_desde_ymd(anio_siguiente, mes_siguiente, 1).unwrap();
    dia_anterior(primero).unwrap().dia
}

/// Día del mes en que cae la ocurrencia de `dia` en el mes `(a, m)`: el
/// propio `dia` o, si ese mes es más corto, su último día.
pub open spec fn dia_acotado(a: int, m: int, dia: int) -> int {
    min_int(dia, dias_del_mes(a, m))
}

/// Próxima ocurrencia (inclusive) del día `dia` del mes a partir de `hoy`.
pub open spec fn proxima_ocurrencia(hoy: Fecha, dia: int) -> Fecha {
    let c = dia_acotado(hoy.anio as int, hoy.mes as int, dia);
    if c >= hoy.dia {
        Fecha { anio: hoy.anio, mes: hoy.mes, dia: c as u32 }
    } else {
        let (a, m) = siguiente_mes(hoy.anio as int, hoy.mes as int);
        Fecha { anio: a as i32, mes: m as u32, dia: dia_acotado(a, m, dia) as u32 }
    }
}

/// El cálculo de la próxima ocurrencia no sale del rango de `NaiveDate`.
pub open spec fn proxima_ocurrencia_definida(hoy: Fecha, dia: int) -> bool {
    &&& !(hoy.anio == ANIO_MAX && hoy.mes == 12)
    &&& (hoy.anio == ANIO_MAX && hoy.mes == 11) ==> dia_acotado(
        hoy.anio as int,
        hoy.mes as int,
        dia,
    ) >= hoy.dia
}

/// Próxima ocurrencia (inclusive) de `dia` como día del mes, contada
/// desde `hoy`. Si `dia` no existe en el mes evaluado (por ejemplo 31 en
/// febrero), usa el último día real de ese mes.
pub fn proxima_ocurrencia_dia_mes(hoy: Fecha, dia: u32) -> (r: Fecha)
    requires
        hoy.wf(),
        dia >= 1,
        proxima_ocurrencia_definida(hoy, dia as int),
    ensures
        r == proxima_ocurrencia(hoy, dia as int),
        r.wf(),
        ordinal(hoy) <= ordinal(r) <= ordinal(hoy) + 30,
        r.dia == dia_acotado(r.anio as int, r.mes as int, dia as int),
{
    let ultimo_este_mes: u32 = ultimo_dia_del_mes(hoy.anio, hoy.mes);
    let candidato_este_mes: u32 = if dia < ultimo_este_mes {
        dia
    } else {
        ultimo_este_mes
    };
    let fecha_este_mes = con_dia(hoy, candidato_este_mes).unwrap();
    if ordinal_de(fecha_este_mes) >= ordinal_de(hoy) {
        return fecha_este_mes;
    }
    let (anio_siguiente, mes_siguiente): (i32, u32) = if hoy.mes == 12 {
        (hoy.anio + 1, 1)
    } else {
        (hoy.anio, hoy.mes + 1)
    };
    let ultimo_siguiente: u32 = ultimo_dia_del_mes(anio_siguiente, mes_siguiente);
    let candidato_siguiente: u32 = if dia < ultimo_siguiente {
        dia
    } else {
        ultimo_siguiente
    };
    proof {
        lema_fin_de_mes(hoy.anio as int, hoy.mes as int);
    }
    fecha_desde_ymd(anio_siguiente, mes_siguiente, candidato_siguiente).unwrap()
}


/// `f + Duration::days(n)`: la fecha `n` días después (o antes, con `n`
/// negativo), o `None` si sale del rango de `NaiveDate`.
pub fn sumar_dias(f: Fecha, n: i64) -> (r: Option<Fecha>)
    requires
        f.wf(),
    ensures
        r matches Some(g) ==> g.wf() && ordinal(g) == ordinal(f) + n,
        r is None <==> (ordinal(f) + n < ordinal_min() || ordinal(f) + n > ordinal_max()),
{
    proof {
        lema_rango_ordinal();
    }
    let o: i64 = ordinal_de(f) as i64;
    if n > 4_000_000_000 || n < -4_000_000_000 {
        return None;
    }
    let t: i64 = o + n;
    if t < -2_000_000_000 || t > 2_000_000_000 {
        return None;
    }
    fecha_desde_ordinal(t as i32)
}

/// `(hasta - desde).num_days()`: días de `desde` a `hasta`.
pub fn dias_entre(desde: Fecha, hasta: Fecha) -> (r: i64)
    requires
        desde.wf(),
        hasta.wf(),
    ensures
        r == ordinal(hasta) - ordinal(desde),
{
    ordinal_de(hasta) as i64 - ordinal_de(desde) as i64
}

/// `a < b` en el orden del calendario.
pub fn es_anterior(a: Fecha, b: Fecha) -> (r: bool)
    requires
        a.wf(),
        b.wf(),
    ensures
        r == (ordinal(a) < ordinal(b)),
{
    ordinal_de(a) < ordinal_de(b)
}

proof fn lema_resto_semana(o: int)
    ensures
        (o - (o - 1) % 7 - 1) % 7 == 0,
{
    assert(o - 1 == 7 * ((o - 1) / 7) + (o - 1) % 7);
}

/// Lunes de la semana (ISO) que contiene `f`, o `None` si ese lunes cae
/// antes del primer día representable.
pub fn lunes_de_semana(f: Fecha) -> (r: Option<Fecha>)
    requires
        f.wf(),
    ensures
        r matches Some(g) ==> g.wf() && ordinal(g) == ordinal(f) - (ordinal(f) - 1) % 7 && (
        ordinal(g) - 1) % 7 == 0,
        r is None <==> ordinal(f) - (ordinal(f) - 1) % 7 < ordinal_min(),
{
    let k: u32 = dias_desde_lunes(f);
    let r = sumar_dias(f, -(k as i64));
    proof {
        lema_rango_ordinal();
        lema_resto_semana(ordinal(f));
    }
    r
}

/// Primer día del mes que resulta de avanzar `meses` meses calendario
/// (o retroceder, con `meses` negativo) desde el mes de `f`.
pub open spec fn sumar_meses_al_primero(f: Fecha, meses: int) -> Fecha {
    let t = mes_total(f.anio as int, f.mes as int, meses);
    Fecha { anio: (t / 12) as i32, mes: (t % 12 + 1) as u32, dia: 1 }
}

/// Suma (o resta, con `meses` negativo) meses calendario y devuelve el
/// día 1 del mes resultante.
pub fn sumar_meses(f: Fecha, meses: i64) -> (r: Fecha)
    requires
        f.wf(),
        ANIO_MIN <= mes_total(f.anio as int, f.mes as int, meses as int) / 12 <= ANIO_MAX,
    ensures
        r == sumar_meses_al_primero(f, meses as int),
        r.wf(),
{
    let total: i64 = f.anio as i64 * 12 + (f.mes as i64 - 1) + meses;
    let anio: i64 = total.checked_div_euclid(12).unwrap();
    let mes: i64 = total.checked_rem_euclid(12).unwrap();
    fecha_desde_ymd(anio as i32, mes as u32 + 1, 1).unwrap()
}

/// Avanzar `a` meses y luego `b` meses es avanzar `a + b` meses.
pub proof fn ley_sumar_meses_compone(f: Fecha, a: int, b: int)
    requires
        f.wf(),
        ANIO_MIN <= mes_total(f.anio as int, f.mes as int, a) / 12 <= ANIO_MAX,
    ensures
        sumar_meses_al_primero(sumar_meses_al_primero(f, a), b) == sumar_meses_al_primero(
            f,
            a + b,
        ),
{
    let t: int = mes_total(f.anio as int, f.mes as int, a);
    let g = sumar_meses_al_primero(f, a);
    assert(mes_total(g.anio as int, g.mes as int, b) == t + b) by {
        assert(t == (t / 12) * 12 + t % 12);
    }
}


/// Contar días desde el año 1 crece con el año.
pub proof fn lema_anio_monotono(a: int, b: int)
    requires
        a <= b,
    ensures
        dias_antes_del_anio(a) <= dias_antes_del_anio(b),
{
    let p: int = a - 1;
    let q: int = b - 1;
    assert(q / 4 >= p / 4);
    assert(q / 400 >= p / 400);
    assert(q / 100 - p / 100 <= (q - p) / 100 + 1);
}

/// Toda fecha válida tiene su ordinal en el rango de `NaiveDate`.
pub proof fn lema_ordinal_en_rango(f: Fecha)
    requires
        f.wf(),
    ensures
        ordinal_min() <= ordinal(f) <= ordinal_max(),
{
    let a: int = f.anio as int;
    lema_anio_siguiente(a);
    lema_anio_siguiente(ANIO_MAX as int);
    lema_anio_monotono(a + 1, ANIO_MAX as int + 1);
    lema_anio_monotono(ANIO_MIN as int, a);
    assert(dias_antes_del_mes(a, f.mes as int) + f.dia <= dias_antes_del_mes(a, 12) + 31);
}


/// Año como lo escribe `chrono`: cuatro dígitos entre 0 y 9999; fuera de
/// ese rango, con signo y al menos cuatro dígitos.
pub open spec fn texto_anio(a: int) -> Seq<char> {
    if 0 <= a <= 9999 {
        relleno_ceros(a as nat, 4)
    } else if a < 0 {
        seq!['-'] + relleno_ceros((-a) as nat, 4)
    } else {
        seq!['+'] + relleno_ceros(a as nat, 4)
    }
}

/// La fecha en formato ISO 8601 (`AAAA-MM-DD`), como la escribe
/// `Display` de `NaiveDate`.
pub open spec fn fecha_iso(f: Fecha) -> Seq<char> {
    texto_anio(f.anio as int) + seq!['-'] + dos_digitos(f.mes as int) + seq!['-'] + dos_digitos(
        f.dia as int,
    )
}

/// `Display` de `NaiveDate`: año (cuatro dígitos, o con signo fuera de
/// 0..=9999), mes y día con dos dígitos, separados por guiones.
#[verifier::external_body]
pub(crate) fn texto_fecha(f: Fecha) -> (r: String)
    requires
        f.wf(),
    ensures
        r@ == fecha_iso(f),
{
    NaiveDate::from_ymd_opt(f.anio, f.mes, f.dia).unwrap().to_string()
}

} // verus!
