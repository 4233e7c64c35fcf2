//! Métricas y datos de las gráficas: la vista de la gráfica de tendencia
//! (rango de fechas, grilla del eje X y etiquetas), los puntos de la
//! tendencia, las rebanadas del pastel por categoría, la tasa de ahorro
//! y el flujo de caja.
use vstd::prelude::*;
use crate::fecha::{
    Fecha, ordinal, ordinal_min, ordinal_max, dias_del_mes, mes_total, sumar_meses_al_primero,
    ANIO_MIN, ANIO_MAX, lunes_de_semana, sumar_dias, primer_dia_del_mes, ultimo_dia_del_mes,
    sumar_meses, dias_entre, dias_desde_lunes, lema_ordinal_en_rango,
};
use crate::texto::{texto_decimal, dos_digitos, texto_entero, texto_dos_digitos, mismo_texto};
use crate::decimal::{
    Monto, entero, dec_suma, dec_resta, dec_producto, dec_cociente, op_suma, op_producto,
    op_cociente, sumar, restar, multiplicar, dividir, producto_es_exacto, cociente_es_exacto,
    pot10, ESCALA_MAX, lema_por_ciento_exacto, lema_umbral_por_ciento, lema_signo,
    lema_comparar_por_factor, lema_pot10_positiva, resta_es_exacta,
};
use crate::errores::{AppError, error_aritmetico};

verus! {

/// Vista de la gráfica de tendencia. Cada vista fija a la vez el rango y
/// la unidad de agrupación: "semana" es la semana en curso día por día,
/// "mes" el mes en curso semana por semana y "año" los últimos 12 meses,
/// mes por mes.
#[derive(Debug, Clone, Copy, PartialEq, Eq, Structural)]
pub enum Vista {
    Semana,
    Mes,
    Anio,
}

/// Lee la vista pedida: "semana", "año" (o "anio"); cualquier otro valor,
/// o ninguno, es "mes".
pub fn parsear_vista(valor: Option<&str>) -> (r: Vista)
    ensures
        (valor matches Some(v) && v@ == "semana"@) ==> r == Vista::Semana,
        (valor matches Some(v) && (v@ == "año"@ || v@ == "anio"@)) ==> r == Vista::Anio,
        !(valor matches Some(v) && (v@ == "semana"@ || v@ == "año"@ || v@ == "anio"@)) ==> r
            == Vista::Mes,
{
    proof {
        reveal_strlit("semana");
        reveal_strlit("año");
        reveal_strlit("anio");
        assert("semana"@.len() != "año"@.len());
        assert("semana"@.len() != "anio"@.len());
    }
    match valor {
        Some(v) => {
            if mismo_texto(v, "semana") {
                Vista::Semana
            } else if mismo_texto(v, "año") || mismo_texto(v, "anio") {
                Vista::Anio
            } else {
                Vista::Mes
            }
        },
        None => Vista::Mes,
    }
}

/// Unidad de `date_trunc` de cada vista.
pub open spec fn unidad_de(v: Vista) -> Seq<char> {
    match v {
        Vista::Semana => "day"@,
        Vista::Mes => "week"@,
        Vista::Anio => "month"@,
    }
}

/// Unidad de `date_trunc` en SQL. Como sale de un `match` cerrado, a la
/// consulta nunca llega un texto del cliente, solo uno de estos tres.
pub fn date_trunc_pg(v: Vista) -> (r: &'static str)
    ensures
        r@ == unidad_de(v),
{
    match v {
        Vista::Semana => "day",
        Vista::Mes => "week",
        Vista::Anio => "month",
    }
}

/// Abreviatura del mes `m` (1-12).
pub open spec fn mes_abrev(m: int) -> Seq<char> {
    if m == 1 {
        "ene"@
    } else if m == 2 {
        "feb"@
    } else if m == 3 {
        "mar"@
    } else if m == 4 {
        "abr"@
    } else if m == 5 {
        "may"@
    } else if m == 6 {
        "jun"@
    } else if m == 7 {
        "jul"@
    } else if m == 8 {
        "ago"@
    } else if m == 9 {
        "sep"@
    } else if m == 10 {
        "oct"@
    } else if m == 11 {
        "nov"@
    } else {
        "dic"@
    }
}

fn mes_abrev_texto(m: u32) -> (r: &'static str)
    ensures
        r@ == mes_abrev(m as int),
{
    match m {
        1 => "ene",
        2 => "feb",
        3 => "mar",
        4 => "abr",
        5 => "may",
        6 => "jun",
        7 => "jul",
        8 => "ago",
        9 => "sep",
        10 => "oct",
        11 => "nov",
        _ => "dic",
    }
}

/// Abreviatura del día de la semana `k` (0 = lunes ... 6 = domingo).
pub open spec fn dia_abrev(k: int) -> Seq<char> {
    if k == 0 {
        "lun"@
    } else if k == 1 {
        "mar"@
    } else if k == 2 {
        "mié"@
    } else if k == 3 {
        "jue"@
    } else if k == 4 {
        "vie"@
    } else if k == 5 {
        "sáb"@
    } else {
        "dom"@
    }
}

fn dia_abrev_texto(k: u32) -> (r: &'static str)
    ensures
        r@ == dia_abrev(k as int),
{
    match k {
        0 => "lun",
        1 => "mar",
        2 => "mié",
        3 => "jue",
        4 => "vie",
        5 => "sáb",
        _ => "dom",
    }
}

/// Día de la semana de `f`: 0 el lunes ... 6 el domingo.
pub open spec fn dia_semana(f: Fecha) -> int {
    (ordinal(f) - 1) % 7
}

/// Etiqueta de un mes: "ene 2026".
pub open spec fn etiqueta_mes_spec(f: Fecha) -> Seq<char> {
    mes_abrev(f.mes as int) + " "@ + texto_decimal(f.anio as int)
}

/// Etiqueta de un día: "lun 13".
pub open spec fn etiqueta_dia_spec(f: Fecha) -> Seq<char> {
    dia_abrev(dia_semana(f)) + " "@ + texto_decimal(f.dia as int)
}

/// Etiqueta de una semana por su lunes: "dd/mm".
pub open spec fn etiqueta_semana_spec(f: Fecha) -> Seq<char> {
    dos_digitos(f.dia as int) + "/"@ + dos_digitos(f.mes as int)
}

/// Etiqueta de un punto del eje X según la vista.
pub open spec fn etiqueta_punto_spec(f: Fecha, v: Vista) -> Seq<char> {
    match v {
        Vista::Semana => etiqueta_dia_spec(f),
        Vista::Mes => etiqueta_semana_spec(f),
        Vista::Anio => etiqueta_mes_spec(f),
    }
}

/// Etiqueta de un mes ("ene 2026").
pub fn etiqueta_mes(f: Fecha) -> (r: String)
    requires
        f.wf(),
    ensures
        r@ == etiqueta_mes_spec(f),
{
    String::from_str(mes_abrev_texto(f.mes)).concat(" ").concat(texto_entero(f.anio as i64).as_str())
}

/// Etiqueta de un día ("lun 13").
pub fn etiqueta_dia(f: Fecha) -> (r: String)
    requires
        f.wf(),
    ensures
        r@ == etiqueta_dia_spec(f),
{
    let k: u32 = dias_desde_lunes(f);
    String::from_str(dia_abrev_texto(k)).concat(" ").concat(texto_entero(f.dia as i64).as_str())
}

/// Etiqueta de una semana por su lunes ("dd/mm", el `%d/%m` de chrono).
pub fn etiqueta_semana(f: Fecha) -> (r: String)
    requires
        f.wf(),
    ensures
        r@ == etiqueta_semana_spec(f),
{
    texto_dos_digitos(f.dia).concat("/").concat(texto_dos_digitos(f.mes).as_str())
}

/// Etiqueta de un punto del eje X según la vista.
pub fn etiqueta_punto(f: Fecha, v: Vista) -> (r: String)
    requires
        f.wf(),
    ensures
        r@ == etiqueta_punto_spec(f, v),
{
    match v {
        Vista::Semana => etiqueta_dia(f),
        Vista::Mes => etiqueta_semana(f),
        Vista::Anio => etiqueta_mes(f),
    }
}

/// Ordinal del lunes de la semana del día de ordinal `o`.
pub open spec fn lunes_ord(o: int) -> int {
    o - (o - 1) % 7
}

proof fn lema_lunes_monotono(a: int, b: int)
    requires
        a <= b,
    ensures
        lunes_ord(a) <= lunes_ord(b),
        lunes_ord(b) <= b,
        b - lunes_ord(b) < 7,
        (lunes_ord(b) - lunes_ord(a)) % 7 == 0,
{
    assert(lunes_ord(a) == 7 * ((a - 1) / 7) + 1);
    assert(lunes_ord(b) == 7 * ((b - 1) / 7) + 1);
    assert((a - 1) / 7 <= (b - 1) / 7);
}

/// El primer día del mes de `f`.
pub open spec fn primero_del_mes(f: Fecha) -> Fecha {
    Fecha { anio: f.anio, mes: f.mes, dia: 1 }
}

/// El último día del mes de `f`.
pub open spec fn ultimo_del_mes(f: Fecha) -> Fecha {
    Fecha { anio: f.anio, mes: f.mes, dia: dias_del_mes(f.anio as int, f.mes as int) as u32 }
}

/// Las fechas que la vista necesita (la semana, el mes o los doce meses
/// alrededor de `hoy`) existen en el calendario de `NaiveDate`.
pub open spec fn rango_representable(v: Vista, hoy: Fecha) -> bool {
    match v {
        Vista::Semana => {
            &&& lunes_ord(ordinal(hoy)) >= ordinal_min()
            &&& lunes_ord(ordinal(hoy)) + 6 <= ordinal_max()
        },
        Vista::Mes => {
            &&& !(hoy.anio == ANIO_MAX && hoy.mes == 12)
            &&& lunes_ord(ordinal(primero_del_mes(hoy))) >= ordinal_min()
        },
        Vista::Anio => {
            &&& mes_total(hoy.anio as int, hoy.mes as int, -11) / 12 >= ANIO_MIN
            &&& mes_total(hoy.anio as int, hoy.mes as int, 1) / 12 <= ANIO_MAX
        },
    }
}

/// Rango de fechas a consultar (inclusive en ambos extremos) y grilla
/// completa de puntos del eje X:
/// - semana: de lunes a domingo de la semana de `hoy`, un punto por día;
/// - mes: del primer al último día del mes, un punto por semana (por su
///   lunes, aunque caiga en el mes anterior);
/// - año: los últimos 12 meses hasta el de `hoy`, un punto por mes.
pub fn rango_y_grilla(v: Vista, hoy: Fecha) -> (r: (Fecha, Fecha, Vec<Fecha>))
    requires
        hoy.wf(),
        rango_representable(v, hoy),
    ensures
        r.0.wf(),
        r.1.wf(),
        forall|i: int| 0 <= i < r.2@.len() ==> (#[trigger] r.2@[i]).wf(),
        v == Vista::Semana ==> {
            &&& ordinal(r.0) == lunes_ord(ordinal(hoy))
            &&& ordinal(r.1) == ordinal(r.0) + 6
            &&& r.2@.len() == 7
            &&& forall|i: int| 0 <= i < 7 ==> ordinal(#[trigger] r.2@[i]) == ordinal(r.0) + i
        },
        v == Vista::Mes ==> {
            &&& r.0 == primero_del_mes(hoy)
            &&& r.1 == ultimo_del_mes(hoy)
            &&& r.2@.len() == (lunes_ord(ordinal(r.1)) - lunes_ord(ordinal(r.0))) / 7 + 1
            &&& forall|i: int|
                0 <= i < r.2@.len() ==> ordinal(#[trigger] r.2@[i]) == lunes_ord(ordinal(r.0)) + 7
                    * i
        },
        v == Vista::Anio ==> {
            &&& r.0 == sumar_meses_al_primero(hoy, -11)
            &&& r.1 == ultimo_del_mes(hoy)
            &&& r.2@.len() == 12
            &&& forall|i: int| 0 <= i < 12 ==> #[trigger] r.2@[i] == sumar_meses_al_primero(hoy, i - 11)
        },
{
    match v {
        Vista::Semana => {
            proof {
                lema_ordinal_en_rango(hoy);
                lema_lunes_monotono(ordinal(hoy), ordinal(hoy));
            }
            let lunes = lunes_de_semana(hoy).unwrap();
            let domingo = sumar_dias(lunes, 6).unwrap();
            let mut grilla: Vec<Fecha> = Vec::new();
            let mut i: i64 = 0;
            while i < 7
                invariant
                    0 <= i <= 7,
                    lunes.wf(),
                    ordinal(lunes) + 6 <= ordinal_max(),
                    ordinal(lunes) >= ordinal_min(),
                    grilla@.len() == i,
                    forall|k: int| 0 <= k < i ==> (#[trigger] grilla@[k]).wf() && ordinal(grilla@[k]) == ordinal(lunes) + k,
                decreases 7 - i,
            {
                let dia = sumar_dias(lunes, i).unwrap();
                grilla.push(dia);
                i = i + 1;
            }
            (lunes, domingo, grilla)
        },
        Vista::Mes => {
            let primer_dia = primer_dia_del_mes(hoy);
            let u: u32 = ultimo_dia_del_mes(hoy.anio, hoy.mes);
            let ultimo_dia = Fecha { anio: hoy.anio, mes: hoy.mes, dia: u };
            proof {
                lema_ordinal_en_rango(primer_dia);
                lema_ordinal_en_rango(ultimo_dia);
                lema_lunes_monotono(ordinal(primer_dia), ordinal(ultimo_dia));
            }
            let primera_semana = lunes_de_semana(primer_dia).unwrap();
            let ultima_semana = lunes_de_semana(ultimo_dia).unwrap();
            let cantidad: i64 = dias_entre(primera_semana, ultima_semana) / 7 + 1;
            let mut grilla: Vec<Fecha> = Vec::new();
            let mut i: i64 = 0;
            while i < cantidad
                invariant
                    0 <= i <= cantidad,
                    primera_semana.wf(),
                    ultima_semana.wf(),
                    ordinal(primera_semana) >= ordinal_min(),
                    ordinal(ultima_semana) <= ordinal_max(),
                    cantidad == (ordinal(ultima_semana) - ordinal(primera_semana)) / 7 + 1,
                    (ordinal(ultima_semana) - ordinal(primera_semana)) % 7 == 0,
                    ordinal(primera_semana) <= ordinal(ultima_semana),
                    grilla@.len() == i,
                    forall|k: int| 0 <= k < i ==> (#[trigger] grilla@[k]).wf() && ordinal(grilla@[k]) == ordinal(primera_semana) + 7 * k,
                decreases cantidad - i,
            {
                let dia = sumar_dias(primera_semana, 7 * i).unwrap();
                grilla.push(dia);
                i = i + 1;
            }
            (primer_dia, ultimo_dia, grilla)
        },
        Vista::Anio => {
            let fin = primer_dia_del_mes(hoy);
            let inicio = sumar_meses(fin, -11);
            let mut grilla: Vec<Fecha> = Vec::new();
            let mut i: i64 = 0;
            while i < 12
                invariant
                    0 <= i <= 12,
                    hoy.wf(),
                    fin == primero_del_mes(hoy),
                    inicio == sumar_meses_al_primero(hoy, -11),
                    inicio.wf(),
                    rango_representable(Vista::Anio, hoy),
                    grilla@.len() == i,
                    forall|k: int| 0 <= k < i ==> (#[trigger] grilla@[k]).wf() && grilla@[k] == sumar_meses_al_primero(hoy, k - 11),
                decreases 12 - i,
            {
                let dia = sumar_meses(inicio, i);
                grilla.push(dia);
                i = i + 1;
            }
            let u: u32 = ultimo_dia_del_mes(hoy.anio, hoy.mes);
            (inicio, Fecha { anio: hoy.anio, mes: hoy.mes, dia: u }, grilla)
        },
    }
}


/// `monto` como porcentaje de `total` (`monto / total * 100`), o cero si
/// el total es cero (en vez de dividir por cero). `None` si la cuenta
/// desborda `Decimal`.
pub open spec fn porcentaje_spec(monto: Monto, total: Monto) -> Option<Monto> {
    if total.mantisa == 0 {
        Some(entero(0))
    } else {
        op_producto(dec_cociente(monto, total), Some(entero(100)))
    }
}

/// El porcentaje de `monto` sobre `total` es cero con el total en cero;
/// si no, con la división y el producto por cien exactos, el porcentaje
/// por el total da el monto por cien.
pub proof fn ley_porcentaje(monto: Monto, total: Monto)
    requires
        monto.wf(),
        total.wf(),
    ensures
        total@ == 0 ==> (porcentaje_spec(monto, total) matches Some(x) && x@ == 0),
        (total@ != 0 && cociente_es_exacto(monto, total) && producto_es_exacto(
            dec_cociente(monto, total)->0,
            entero(100),
        )) ==> (porcentaje_spec(monto, total) matches Some(x) && x@ * total@ == monto@ * 100 * pot10(
            ESCALA_MAX as nat,
        )),
{
    lema_signo(total);
    crate::decimal::lema_entero(0);
    crate::decimal::lema_entero(100);
    if total@ != 0 && cociente_es_exacto(monto, total) && producto_es_exacto(
        dec_cociente(monto, total)->0,
        entero(100),
    ) {
        let q = dec_cociente(monto, total)->0;
        let x = dec_producto(q, entero(100))->0;
        let unidad: int = pot10(ESCALA_MAX as nat);
        let t = total@;
        let m = monto@;
        lema_pot10_positiva(ESCALA_MAX as nat);
        assert(q@ * (100 * unidad) == (q@ * 100) * unidad) by (nonlinear_arith);
        lema_comparar_por_factor(x@, q@ * 100, unidad);
        assert(x@ == q@ * 100);
        assert(x@ * t == 100 * (q@ * t)) by (nonlinear_arith)
            requires
                x@ == q@ * 100,
        ;
        assert(q@ * t == m * unidad);
        assert(100 * (m * unidad) == m * 100 * unidad) by (nonlinear_arith);
    }
}

/// % que representa `monto` sobre `total`: `0` si `total` es cero. Un
/// desborde de `Decimal` es un error interno.
pub fn porcentaje(monto: Monto, total: Monto) -> (r: Result<Monto, AppError>)
    requires
        monto.wf(),
        total.wf(),
    ensures
        porcentaje_spec(monto, total) matches Some(x) ==> r == Ok::<Monto, AppError>(x),
        porcentaje_spec(monto, total) is None ==> r matches Err(AppError::Interno(_)),
        r matches Ok(x) ==> x.wf(),
        total@ == 0 ==> (r matches Ok(x) && x@ == 0),
        (total@ != 0 && cociente_es_exacto(monto, total) && producto_es_exacto(
            dec_cociente(monto, total)->0,
            entero(100),
        )) ==> (r matches Ok(x) && x@ * total@ == monto@ * 100 * pot10(ESCALA_MAX as nat)),
{
    proof {
        ley_porcentaje(monto, total);
    }
    if total.mantisa == 0 {
        return Ok(Monto::cero());
    }
    let cien = Monto::desde_entero(100);
    match dividir(monto, total) {
        Some(q) => match multiplicar(q, cien) {
            Some(x) => Ok(x),
            None => Err(error_aritmetico()),
        },
        None => Err(error_aritmetico()),
    }
}

/// Tasa de ahorro del mes: el % del ingreso que fue a metas
/// (`goal_income * 100 / total_income`), o cero sin ingresos.
pub open spec fn tasa_ahorro_spec(goal_income: Monto, total_income: Monto) -> Option<Monto> {
    if total_income.mantisa == 0 {
        Some(entero(0))
    } else {
        op_cociente(dec_producto(goal_income, entero(100)), Some(total_income))
    }
}

/// La tasa de ahorro es lo que fue a metas por cien entre el ingreso total:
/// sin ingresos es cero; con el producto y la división exactos, la tasa
/// por el ingreso total da lo aportado a metas por cien, y si lo aportado
/// está entre cero y el ingreso total, la tasa está entre 0% y 100%.
pub proof fn ley_tasa_ahorro(goal_income: Monto, total_income: Monto)
    requires
        goal_income.wf(),
        total_income.wf(),
    ensures
        total_income@ == 0 ==> (tasa_ahorro_spec(goal_income, total_income) matches Some(x) && x@
            == 0),
        (total_income@ != 0 && producto_es_exacto(goal_income, entero(100)) && cociente_es_exacto(
            dec_producto(goal_income, entero(100))->0,
            total_income,
        )) ==> ({
            let x = tasa_ahorro_spec(goal_income, total_income);
            &&& x is Some
            &&& x->0@ * total_income@ == goal_income@ * 100 * pot10(ESCALA_MAX as nat)
            &&& (0 <= goal_income@ <= total_income@) ==> 0 <= x->0@ <= 100 * pot10(ESCALA_MAX as nat)
        }),
{
    lema_signo(total_income);
    crate::decimal::lema_entero(0);
    if total_income@ != 0 && producto_es_exacto(goal_income, entero(100)) && cociente_es_exacto(
        dec_producto(goal_income, entero(100))->0,
        total_income,
    ) {
        lema_por_ciento_exacto(goal_income, total_income);
        let x = tasa_ahorro_spec(goal_income, total_income)->0;
        let g = goal_income@;
        let t = total_income@;
        if 0 <= g <= t {
            let unidad: int = pot10(ESCALA_MAX as nat);
            lema_pot10_positiva(ESCALA_MAX as nat);
            lema_umbral_por_ciento(x@, g, t, 0);
            assert(x@ * t == g * 100 * unidad);
            lema_comparar_por_factor(100 * unidad, x@, t);
            assert((100 * unidad) * t >= g * 100 * unidad) by (nonlinear_arith)
                requires
                    0 <= g <= t,
                    unidad > 0,
            ;
        }
    }
}

/// % del ingreso del mes destinado a metas; cero si no hubo ingresos.
pub fn tasa_ahorro(goal_income: Monto, total_income: Monto) -> (r: Result<Monto, AppError>)
    requires
        goal_income.wf(),
        total_income.wf(),
    ensures
        tasa_ahorro_spec(goal_income, total_income) matches Some(x) ==> r == Ok::<Monto, AppError>(x),
        tasa_ahorro_spec(goal_income, total_income) is None ==> r matches Err(AppError::Interno(_)),
        total_income@ == 0 ==> (r matches Ok(x) && x@ == 0),
        (total_income@ != 0 && producto_es_exacto(goal_income, entero(100)) && cociente_es_exacto(
            dec_producto(goal_income, entero(100))->0,
            total_income,
        )) ==> (r matches Ok(x) && x@ * total_income@ == goal_income@ * 100 * pot10(
            ESCALA_MAX as nat,
        )),
{
    proof {
        ley_tasa_ahorro(goal_income, total_income);
    }
    if total_income.mantisa == 0 {
        return Ok(Monto::cero());
    }
    let cien = Monto::desde_entero(100);
    match multiplicar(goal_income, cien) {
        Some(p) => match dividir(p, total_income) {
            Some(x) => Ok(x),
            None => Err(error_aritmetico()),
        },
        None => Err(error_aritmetico()),
    }
}

/// Flujo neto: ingresos menos egresos. Un desborde es un error interno.
pub fn flujo_neto(income: Monto, expense: Monto) -> (r: Result<Monto, AppError>)
    requires
        income.wf(),
        expense.wf(),
    ensures
        dec_resta(income, expense) matches Some(x) ==> r == Ok::<Monto, AppError>(x),
        dec_resta(income, expense) is None ==> r matches Err(AppError::Interno(_)),
        r matches Ok(x) ==> x.wf(),
        resta_es_exacta(income, expense) ==> (r matches Ok(x) && x@ == income@ - expense@),
{
    match restar(income, expense) {
        Some(x) => Ok(x),
        None => Err(error_aritmetico()),
    }
}

/// Totales de un período de la tendencia, ya agrupados por la consulta.
#[derive(Clone, Copy)]
pub struct FilaTendencia {
    pub periodo: Fecha,
    pub income: Monto,
    pub expense: Monto,
}

/// Un punto de la gráfica de tendencia.
pub struct PuntoTendencia {
    pub etiqueta: String,
    pub income: Monto,
    pub expense: Monto,
    pub net: Monto,
}

/// La primera fila (desde la posición `desde`) del período `p`.
pub open spec fn fila_de(filas: Seq<FilaTendencia>, p: Fecha, desde: int) -> Option<FilaTendencia>
    decreases filas.len() - desde,
{
    if desde < 0 || desde >= filas.len() {
        None
    } else if filas[desde].periodo == p {
        Some(filas[desde])
    } else {
        fila_de(filas, p, desde + 1)
    }
}

/// Ingresos y egresos de un punto: los de su fila, o cero si el período
/// no tuvo movimientos.
pub open spec fn montos_de(filas: Seq<FilaTendencia>, p: Fecha) -> (Monto, Monto) {
    match fila_de(filas, p, 0) {
        Some(f) => (f.income, f.expense),
        None => (entero(0), entero(0)),
    }
}

/// Las filas traen montos válidos.
pub open spec fn filas_tendencia_wf(filas: Seq<FilaTendencia>) -> bool {
    forall|k: int| 0 <= k < filas.len() ==> (#[trigger] filas[k]).income.wf() && filas[k].expense.wf()
}

/// El punto `p` corresponde a la fecha `f` de la grilla.
pub open spec fn punto_correcto(p: PuntoTendencia, f: Fecha, filas: Seq<FilaTendencia>, v: Vista) -> bool {
    &&& p.etiqueta@ == etiqueta_punto_spec(f, v)
    &&& p.income == montos_de(filas, f).0
    &&& p.expense == montos_de(filas, f).1
    &&& dec_resta(p.income, p.expense) == Some(p.net)
}

fn buscar_fila(filas: &Vec<FilaTendencia>, p: Fecha) -> (r: Option<FilaTendencia>)
    ensures
        r == fila_de(filas@, p, 0),
{
    let n: usize = filas.len();
    let mut i: usize = 0;
    while i < n
        invariant
            n == filas@.len(),
            0 <= i <= n,
            fila_de(filas@, p, i as int) == fila_de(filas@, p, 0),
        decreases n - i,
    {
        if filas[i].periodo == p {
            return Some(filas[i]);
        }
        i = i + 1;
    }
    None
}

/// Un punto por fecha de la grilla, en su orden: aunque un período no
/// tenga movimientos, el eje X lo muestra en cero. El saldo neto es
/// ingresos menos egresos; si esa resta desborda, error interno.
pub fn puntos_tendencia(grilla: &Vec<Fecha>, filas: &Vec<FilaTendencia>, v: Vista) -> (r: Result<
    Vec<PuntoTendencia>,
    AppError,
>)
    requires
        forall|i: int| 0 <= i < grilla@.len() ==> (#[trigger] grilla@[i]).wf(),
        filas_tendencia_wf(filas@),
    ensures
        r is Ok <==> (forall|i: int|
            0 <= i < grilla@.len() ==> #[trigger] dec_resta(
                montos_de(filas@, grilla@[i]).0,
                montos_de(filas@, grilla@[i]).1,
            ) is Some),
        r matches Err(e) ==> e is Interno,
        r matches Ok(ps) ==> ps@.len() == grilla@.len() && forall|i: int|
            0 <= i < grilla@.len() ==> punto_correcto(#[trigger] ps@[i], grilla@[i], filas@, v),
{
    let mut puntos: Vec<PuntoTendencia> = Vec::new();
    let n: usize = grilla.len();
    let mut i: usize = 0;
    while i < n
        invariant
            n == grilla@.len(),
            0 <= i <= n,
            forall|k: int| 0 <= k < grilla@.len() ==> (#[trigger] grilla@[k]).wf(),
            filas_tendencia_wf(filas@),
            puntos@.len() == i,
            forall|k: int| 0 <= k < i ==> punto_correcto(#[trigger] puntos@[k], grilla@[k], filas@, v),
            forall|k: int| 0 <= k < i ==> #[trigger] dec_resta(
                montos_de(filas@, grilla@[k]).0,
                montos_de(filas@, grilla@[k]).1,
            ) is Some,
        decreases n - i,
    {
        let periodo = grilla[i];
        let (income, expense) = match buscar_fila(filas, periodo) {
            Some(f) => {
                proof {
                    lema_fila_de_esta(filas@, periodo, 0);
                }
                (f.income, f.expense)
            },
            None => (Monto::cero(), Monto::cero()),
        };
        let net = match restar(income, expense) {
            Some(x) => x,
            None => {
                proof {
                    assert(income == montos_de(filas@, grilla@[i as int]).0);
                    assert(expense == montos_de(filas@, grilla@[i as int]).1);
                    assert(dec_resta(
                        montos_de(filas@, grilla@[i as int]).0,
                        montos_de(filas@, grilla@[i as int]).1,
                    ) is None);
                }
                return Err(error_aritmetico());
            },
        };
        let etiqueta = etiqueta_punto(periodo, v);
        puntos.push(PuntoTendencia { etiqueta, income, expense, net });
        i = i + 1;
    }
    Ok(puntos)
}

proof fn lema_fila_de_esta(filas: Seq<FilaTendencia>, p: Fecha, desde: int)
    requires
        0 <= desde,
        filas_tendencia_wf(filas),
    ensures
        fila_de(filas, p, desde) matches Some(f) ==> f.income.wf() && f.expense.wf(),
    decreases filas.len() - desde,
{
    if desde < filas.len() && filas[desde].periodo != p {
        lema_fila_de_esta(filas, p, desde + 1);
    }
}

/// Total por tipo y categoría de un rango, ya agrupado por la consulta
/// (`tipo` es "income" o "expense").
pub struct FilaPastel {
    pub tipo: String,
    pub category_id: Option<u128>,
    pub category_name: String,
    pub amount: Monto,
}

/// Una rebanada del pastel: su monto y el % sobre el total de su tipo.
pub struct RebanadaPastel {
    pub category_id: Option<u128>,
    pub category_name: String,
    pub amount: Monto,
    pub percentage: Monto,
}

/// Un gráfico SVG ya armado, como texto, listo para insertarse en la
/// página tal cual.
pub struct GraficoSvg {
    pub svg: String,
}

/// Ingresos y gastos por categoría, como dos listas separadas: cada una
/// con porcentajes sobre su propio total.
pub struct DatosFlujoPastel {
    pub ingresos: Vec<RebanadaPastel>,
    pub gastos: Vec<RebanadaPastel>,
}

/// Suma (en el orden de las filas, desde cero) de los montos de las
/// primeras `n` filas del tipo dado; `None` si desborda.
pub open spec fn total_tipo(filas: Seq<FilaPastel>, tipo: Seq<char>, n: int) -> Option<Monto>
    decreases n,
{
    if n <= 0 {
        Some(entero(0))
    } else if filas[n - 1].tipo@ == tipo {
        op_suma(total_tipo(filas, tipo, n - 1), Some(filas[n - 1].amount))
    } else {
        total_tipo(filas, tipo, n - 1)
    }
}

/// Las filas del tipo dado entre las primeras `n`, en su orden.
pub open spec fn filas_tipo(filas: Seq<FilaPastel>, tipo: Seq<char>, n: int) -> Seq<FilaPastel>
    decreases n,
{
    if n <= 0 {
        Seq::<FilaPastel>::empty()
    } else if filas[n - 1].tipo@ == tipo {
        filas_tipo(filas, tipo, n - 1).push(filas[n - 1])
    } else {
        filas_tipo(filas, tipo, n - 1)
    }
}

/// Las filas traen montos válidos.
pub open spec fn filas_pastel_wf(filas: Seq<FilaPastel>) -> bool {
    forall|k: int| 0 <= k < filas.len() ==> (#[trigger] filas[k]).amount.wf()
}

/// La rebanada `r` es la fila `f` con su % sobre `total`.
pub open spec fn rebanada_de(r: RebanadaPastel, f: FilaPastel, total: Monto) -> bool {
    &&& r.category_id == f.category_id
    &&& r.category_name@ == f.category_name@
    &&& r.amount == f.amount
    &&& porcentaje_spec(f.amount, total) == Some(r.percentage)
}

/// Todas las filas de `fs` tienen su % definido sobre `total`.
pub open spec fn porcentajes_definidos(fs: Seq<FilaPastel>, total: Monto) -> bool {
    forall|k: int| 0 <= k < fs.len() ==> #[trigger] porcentaje_spec(fs[k].amount, total) is Some
}

/// `rs` son las rebanadas de `fs`, una a una y en orden.
pub open spec fn rebanadas_de(rs: Seq<RebanadaPastel>, fs: Seq<FilaPastel>, total: Monto) -> bool {
    &&& rs.len() == fs.len()
    &&& forall|k: int| 0 <= k < fs.len() ==> rebanada_de(#[trigger] rs[k], fs[k], total)
}

proof fn lema_filas_tipo_wf(filas: Seq<FilaPastel>, tipo: Seq<char>, n: int)
    requires
        filas_pastel_wf(filas),
        n <= filas.len(),
    ensures
        filas_pastel_wf(filas_tipo(filas, tipo, n)),
    decreases n,
{
    if n > 0 {
        lema_filas_tipo_wf(filas, tipo, n - 1);
    }
}

fn total_de(filas: &Vec<FilaPastel>, tipo: &str) -> (r: Option<Monto>)
    requires
        filas_pastel_wf(filas@),
    ensures
        r == total_tipo(filas@, tipo@, filas@.len() as int),
        r matches Some(x) ==> x.wf(),
{
    let n: usize = filas.len();
    let mut total: Monto = Monto::cero();
    let mut i: usize = 0;
    while i < n
        invariant
            n == filas@.len(),
            0 <= i <= n,
            filas_pastel_wf(filas@),
            total.wf(),
            total_tipo(filas@, tipo@, i as int) == Some(total),
        decreases n - i,
    {
        if mismo_texto(filas[i].tipo.as_str(), tipo) {
            match sumar(total, filas[i].amount) {
                Some(x) => {
                    total = x;
                },
                None => {
                    proof {
                        lema_total_none(filas@, tipo@, (i + 1) as int, n as int);
                    }
                    return None;
                },
            }
        }
        i = i + 1;
    }
    Some(total)
}

proof fn lema_total_none(filas: Seq<FilaPastel>, tipo: Seq<char>, i: int, n: int)
    requires
        0 <= i <= n,
        total_tipo(filas, tipo, i) is None,
    ensures
        total_tipo(filas, tipo, n) is None,
    decreases n - i,
{
    if i < n {
        lema_total_none(filas, tipo, i + 1, n);
    }
}

proof fn lema_filas_tipo_prefijo(filas: Seq<FilaPastel>, tipo: Seq<char>, a: int, b: int)
    requires
        0 <= a <= b <= filas.len(),
    ensures
        filas_tipo(filas, tipo, a).len() <= filas_tipo(filas, tipo, b).len(),
        forall|k: int|
            0 <= k < filas_tipo(filas, tipo, a).len() ==> #[trigger] filas_tipo(filas, tipo, b)[k]
                == filas_tipo(filas, tipo, a)[k],
    decreases b - a,
{
    if a < b {
        lema_filas_tipo_prefijo(filas, tipo, a, b - 1);
    }
}

fn rebanadas(filas: &Vec<FilaPastel>, tipo: &str, total: Monto) -> (r: Option<Vec<RebanadaPastel>>)
    requires
        filas_pastel_wf(filas@),
        total.wf(),
    ensures
        r is Some <==> porcentajes_definidos(filas_tipo(filas@, tipo@, filas@.len() as int), total),
        r matches Some(rs) ==> rebanadas_de(rs@, filas_tipo(filas@, tipo@, filas@.len() as int), total),
{
    let n: usize = filas.len();
    let mut salida: Vec<RebanadaPastel> = Vec::new();
    let mut i: usize = 0;
    while i < n
        invariant
            n == filas@.len(),
            0 <= i <= n,
            filas_pastel_wf(filas@),
            total.wf(),
            rebanadas_de(salida@, filas_tipo(filas@, tipo@, i as int), total),
            porcentajes_definidos(filas_tipo(filas@, tipo@, i as int), total),
        decreases n - i,
    {
        let ghost antes = filas_tipo(filas@, tipo@, i as int);
        let ghost salida_antes = salida@;
        if mismo_texto(filas[i].tipo.as_str(), tipo) {
            let f = &filas[i];
            match porcentaje(f.amount, total) {
                Ok(p) => {
                    let nombre = f.category_name.clone();
                    salida.push(
                        RebanadaPastel {
                            category_id: f.category_id,
                            category_name: nombre,
                            amount: f.amount,
                            percentage: p,
                        },
                    );
                    proof {
                        let ahora = filas_tipo(filas@, tipo@, i + 1);
                        assert(ahora == antes.push(filas@[i as int]));
                        assert forall|k: int| 0 <= k < ahora.len() implies rebanada_de(
                            #[trigger] salida@[k],
                            ahora[k],
                            total,
                        ) by {
                            if k < antes.len() {
                                assert(salida@[k] == salida_antes[k]);
                                assert(ahora[k] == antes[k]);
                            }
                        }
                        assert forall|k: int| 0 <= k < ahora.len() implies #[trigger] porcentaje_spec(
                            ahora[k].amount,
                            total,
                        ) is Some by {
                            if k < antes.len() {
                                assert(ahora[k] == antes[k]);
                            }
                        }
                    }
                },
                Err(_) => {
                    proof {
                        let ahora = filas_tipo(filas@, tipo@, i + 1);
                        assert(ahora == antes.push(filas@[i as int]));
                        assert(ahora[antes.len() as int] == filas@[i as int]);
                        lema_filas_tipo_prefijo(filas@, tipo@, i + 1, n as int);
                        let todas = filas_tipo(filas@, tipo@, n as int);
                        assert(todas[antes.len() as int] == filas@[i as int]);
                        assert(porcentaje_spec(todas[antes.len() as int].amount, total) is None);
                    }
                    return None;
                },
            }
        }
        i = i + 1;
    }
    Some(salida)
}



/// Se pueden calcular los dos totales y todos los porcentajes sin
/// desbordar `Decimal`.
pub open spec fn pastel_definido(filas: Seq<FilaPastel>) -> bool {
    let n = filas.len() as int;
    &&& total_tipo(filas, "income"@, n) matches Some(ti) && porcentajes_definidos(
        filas_tipo(filas, "income"@, n),
        ti,
    )
    &&& total_tipo(filas, "expense"@, n) matches Some(te) && porcentajes_definidos(
        filas_tipo(filas, "expense"@, n),
        te,
    )
}

/// Ingresos y gastos por categoría en dos listas separadas, cada rebanada
/// con su % sobre el total de su propio tipo (no sobre ingreso + gasto).
/// Las filas de otros tipos no cuentan. Un desborde de `Decimal` es un
/// error interno.
pub fn armar_pastel(filas: &Vec<FilaPastel>) -> (r: Result<DatosFlujoPastel, AppError>)
    requires
        filas_pastel_wf(filas@),
    ensures
        r is Ok <==> pastel_definido(filas@),
        r matches Err(e) ==> e is Interno,
        r matches Ok(d) ==> (total_tipo(filas@, "income"@, filas@.len() as int) matches Some(ti)
            && rebanadas_de(d.ingresos@, filas_tipo(filas@, "income"@, filas@.len() as int), ti)),
        r matches Ok(d) ==> (total_tipo(filas@, "expense"@, filas@.len() as int) matches Some(te)
            && rebanadas_de(d.gastos@, filas_tipo(filas@, "expense"@, filas@.len() as int), te)),
{
    let total_ingresos = match total_de(filas, "income") {
        Some(t) => t,
        None => {
            return Err(error_aritmetico());
        },
    };
    let total_gastos = match total_de(filas, "expense") {
        Some(t) => t,
        None => {
            return Err(error_aritmetico());
        },
    };
    let ingresos = match rebanadas(filas, "income", total_ingresos) {
        Some(v) => v,
        None => {
            return Err(error_aritmetico());
        },
    };
    let gastos = match rebanadas(filas, "expense", total_gastos) {
        Some(v) => v,
        None => {
            return Err(error_aritmetico());
        },
    };
    Ok(DatosFlujoPastel { ingresos, gastos })
}

} // verus!
