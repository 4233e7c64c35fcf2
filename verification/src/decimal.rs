//! Cantidades monetarias y tasas en punto decimal fijo.
//!
//! Un `Monto` guarda la misma pareja (mantisa, escala) que
//! `rust_decimal::Decimal`: su valor es `mantisa / 10^escala`, con la
//! mantisa acotada a 96 bits y la escala a 28. La vista `m@` es ese
//! valor expresado en unidades de 10^-28, así que siempre es un entero y
//! sumar, restar o comparar montos es aritmética lineal sobre vistas.
//!
//! Toda la aritmética que redondea (producto, cociente, potencia) se
//! delega en `rust_decimal`; lo que aquí se verifica es cómo la usa el
//! resto del sistema.
use rust_decimal::Decimal;
use rust_decimal::MathematicalOps;
use vstd::prelude::*;
use crate::texto::{digitos, relleno_ceros};

verus! {

/// 10^n.
pub open spec fn pot10(n: nat) -> int
    decreases n,
{
    if n == 0 {
        1
    } else {
        10 * pot10((n - 1) as nat)
    }
}

/// Mayor mantisa representable: 2^96 - 1.
pub const MANTISA_MAX: i128 = 79228162514264337593543950335;

/// Mayor escala (dígitos decimales) representable.
pub const ESCALA_MAX: u32 = 28;

/// Número decimal `mantisa / 10^escala`.
#[derive(Clone, Copy, Debug)]
pub struct Monto {
    pub mantisa: i128,
    pub escala: u32,
}

impl Monto {
    /// La pareja cabe en un `rust_decimal::Decimal`.
    pub open spec fn wf(self) -> bool {
        &&& -MANTISA_MAX <= self.mantisa <= MANTISA_MAX
        &&& self.escala <= ESCALA_MAX
    }

    pub open spec fn de_par(p: (int, int)) -> Monto {
        Monto { mantisa: p.0 as i128, escala: p.1 as u32 }
    }
}

impl View for Monto {
    type V = int;

    /// Valor en unidades de 10^-28.
    open spec fn view(&self) -> int {
        self.mantisa * pot10((ESCALA_MAX - self.escala) as nat)
    }
}

/// `v` (en unidades de 10^-28) se escribe exacto con `e` decimales.
pub open spec fn cabe(v: int, e: int) -> bool {
    &&& 0 <= e <= ESCALA_MAX
    &&& v % pot10((ESCALA_MAX - e) as nat) == 0
    &&& -MANTISA_MAX <= v / pot10((ESCALA_MAX - e) as nat) <= MANTISA_MAX
}

pub open spec fn max_escala(a: Monto, b: Monto) -> int {
    if a.escala >= b.escala {
        a.escala as int
    } else {
        b.escala as int
    }
}

/// Lo que devuelve `Decimal::checked_add` para dos parejas (mantisa, escala).
pub uninterp spec fn suma_decimal(am: int, ae: int, bm: int, be: int) -> Option<(int, int)>;

/// Lo que devuelve `Decimal::checked_sub` para dos parejas (mantisa, escala).
pub uninterp spec fn resta_decimal(am: int, ae: int, bm: int, be: int) -> Option<(int, int)>;

/// Lo que devuelve `Decimal::checked_mul` para dos parejas (mantisa, escala).
pub uninterp spec fn producto_decimal(am: int, ae: int, bm: int, be: int) -> Option<(int, int)>;

/// Lo que devuelve `Decimal::checked_div` para dos parejas (mantisa, escala).
pub uninterp spec fn cociente_decimal(am: int, ae: int, bm: int, be: int) -> Option<(int, int)>;

/// Lo que devuelve `MathematicalOps::checked_powi` para una pareja y un exponente.
pub uninterp spec fn potencia_decimal(bm: int, be: int, exp: int) -> Option<(int, int)>;

pub open spec fn opcion_monto(p: Option<(int, int)>) -> Option<Monto> {
    match p {
        Some(par) => Some(Monto::de_par(par)),
        None => None,
    }
}

pub open spec fn dec_suma(a: Monto, b: Monto) -> Option<Monto> {
    opcion_monto(suma_decimal(a.mantisa as int, a.escala as int, b.mantisa as int, b.escala as int))
}

pub open spec fn dec_resta(a: Monto, b: Monto) -> Option<Monto> {
    opcion_monto(resta_decimal(a.mantisa as int, a.escala as int, b.mantisa as int, b.escala as int))
}

pub open spec fn dec_producto(a: Monto, b: Monto) -> Option<Monto> {
    opcion_monto(
        producto_decimal(a.mantisa as int, a.escala as int, b.mantisa as int, b.escala as int),
    )
}

pub open spec fn dec_cociente(a: Monto, b: Monto) -> Option<Monto> {
    opcion_monto(
        cociente_decimal(a.mantisa as int, a.escala as int, b.mantisa as int, b.escala as int),
    )
}

pub open spec fn dec_potencia(b: Monto, exp: int) -> Option<Monto> {
    opcion_monto(potencia_decimal(b.mantisa as int, b.escala as int, exp))
}

/// El producto de las mantisas cabe en 96 bits y la suma de escalas no pasa de 28.
pub open spec fn producto_exacto(a: Monto, b: Monto) -> bool {
    &&& a.escala + b.escala <= ESCALA_MAX
    &&& -MANTISA_MAX <= a.mantisa * b.mantisa <= MANTISA_MAX
}

/// `a * b` da exactamente el producto de los valores (sin redondeo).
pub open spec fn producto_es_exacto(a: Monto, b: Monto) -> bool {
    dec_producto(a, b) matches Some(x) && x@ * pot10(ESCALA_MAX as nat) == a@ * b@
}

/// `a / b` da exactamente el cociente de los valores (sin redondeo).
pub open spec fn cociente_es_exacto(a: Monto, b: Monto) -> bool {
    dec_cociente(a, b) matches Some(x) && x@ * b@ == a@ * pot10(ESCALA_MAX as nat)
}

/// `a - b` da exactamente la diferencia de los valores (sin redondeo).
pub open spec fn resta_es_exacta(a: Monto, b: Monto) -> bool {
    dec_resta(a, b) matches Some(x) && x@ == a@ - b@
}

/// Un entero sin decimales.
pub open spec fn entero(n: int) -> Monto {
    Monto { mantisa: n as i128, escala: 0 }
}

/// Suma con `Decimal::checked_add`: `None` si desborda.
///
/// Lo que se afirma de la biblioteca: el resultado es el de `checked_add`
/// y, cuando la suma exacta cabe con la mayor de las dos escalas, es
/// exactamente la suma. Qué redondeo aplica cuando no cabe queda sin
/// describir (solo se le da nombre).
#[verifier::external_body]
pub(crate) fn sumar(a: Monto, b: Monto) -> (r: Option<Monto>)
    requires
        a.wf(),
        b.wf(),
    ensures
        r == opcion_monto(suma_decimal(a.mantisa as int, a.escala as int, b.mantisa as int, b.escala as int)),
        r matches Some(x) ==> x.wf(),
        r is Some || !cabe(a@ + b@, max_escala(a, b)),
        r matches Some(x) ==> (cabe(a@ + b@, max_escala(a, b)) ==> x@ == a@ + b@),
{
    let x = Decimal::from_i128_with_scale(a.mantisa, a.escala);
    let y = Decimal::from_i128_with_scale(b.mantisa, b.escala);
    x.checked_add(y).map(|z| Monto { mantisa: z.mantissa(), escala: z.scale() })
}

/// Resta con `Decimal::checked_sub`: `None` si desborda. Exacta cuando
/// la diferencia cabe con la mayor de las dos escalas.
#[verifier::external_body]
pub(crate) fn restar(a: Monto, b: Monto) -> (r: Option<Monto>)
    requires
        a.wf(),
        b.wf(),
    ensures
        r == opcion_monto(resta_decimal(a.mantisa as int, a.escala as int, b.mantisa as int, b.escala as int)),
        r matches Some(x) ==> x.wf(),
        r is Some || !cabe(a@ - b@, max_escala(a, b)),
        r matches Some(x) ==> (cabe(a@ - b@, max_escala(a, b)) ==> x@ == a@ - b@),
{
    let x = Decimal::from_i128_with_scale(a.mantisa, a.escala);
    let y = Decimal::from_i128_with_scale(b.mantisa, b.escala);
    x.checked_sub(y).map(|z| Monto { mantisa: z.mantissa(), escala: z.scale() })
}

/// Producto con `Decimal::checked_mul`: `None` si desborda. Exacto
/// cuando el producto de las mantisas cabe en 96 bits y la suma de
/// escalas no pasa de 28.
#[verifier::external_body]
pub(crate) fn multiplicar(a: Monto, b: Monto) -> (r: Option<Monto>)
    requires
        a.wf(),
        b.wf(),
    ensures
        r == opcion_monto(producto_decimal(a.mantisa as int, a.escala as int, b.mantisa as int, b.escala as int)),
        r matches Some(x) ==> x.wf(),
        r is Some || !producto_exacto(a, b),
        r matches Some(x) ==> (producto_exacto(a, b) ==> x@ == a.mantisa * b.mantisa * pot10(
            (ESCALA_MAX - a.escala - b.escala) as nat,
        )),
{
    let x = Decimal::from_i128_with_scale(a.mantisa, a.escala);
    let y = Decimal::from_i128_with_scale(b.mantisa, b.escala);
    x.checked_mul(y).map(|z| Monto { mantisa: z.mantissa(), escala: z.scale() })
}

/// Cociente con `Decimal::checked_div`: `None` si el divisor es cero o
/// el resultado desborda. El redondeo del cociente queda sin describir.
#[verifier::external_body]
pub(crate) fn dividir(a: Monto, b: Monto) -> (r: Option<Monto>)
    requires
        a.wf(),
        b.wf(),
    ensures
        r == opcion_monto(cociente_decimal(a.mantisa as int, a.escala as int, b.mantisa as int, b.escala as int)),
        r matches Some(x) ==> x.wf(),
        b.mantisa == 0 ==> r is None,
{
    let x = Decimal::from_i128_with_scale(a.mantisa, a.escala);
    let y = Decimal::from_i128_with_scale(b.mantisa, b.escala);
    x.checked_div(y).map(|z| Monto { mantisa: z.mantissa(), escala: z.scale() })
}

/// Potencia entera con `MathematicalOps::checked_powi`: `None` si
/// desborda. El algoritmo (cuadrados repetidos con redondeo) queda sin
/// describir.
#[verifier::external_body]
pub(crate) fn potencia(b: Monto, exp: i64) -> (r: Option<Monto>)
    requires
        b.wf(),
    ensures
        r == opcion_monto(potencia_decimal(b.mantisa as int, b.escala as int, exp as int)),
        r matches Some(x) ==> x.wf(),
{
    let x = Decimal::from_i128_with_scale(b.mantisa, b.escala);
    x.checked_powi(exp).map(|z| Monto { mantisa: z.mantissa(), escala: z.scale() })
}

/// `a < b` según el orden de `Decimal` (orden de los valores).
#[verifier::external_body]
pub(crate) fn menor_que(a: Monto, b: Monto) -> (r: bool)
    requires
        a.wf(),
        b.wf(),
    ensures
        r == (a@ < b@),
{
    Decimal::from_i128_with_scale(a.mantisa, a.escala) < Decimal::from_i128_with_scale(
        b.mantisa,
        b.escala,
    )
}

pub proof fn lema_pot10_positiva(n: nat)
    ensures
        pot10(n) >= 1,
    decreases n,
{
    if n > 0 {
        lema_pot10_positiva((n - 1) as nat);
    }
}

/// El valor de `entero(n)` es `n` unidades.
pub proof fn lema_entero(n: int)
    requires
        -MANTISA_MAX <= n <= MANTISA_MAX,
    ensures
        entero(n).wf(),
        entero(n)@ == n * pot10(ESCALA_MAX as nat),
{
}

/// Comparar dos enteros es lo mismo que comparar sus productos por un
/// mismo factor positivo.
pub proof fn lema_comparar_por_factor(a: int, b: int, k: int)
    requires
        k > 0,
    ensures
        (a >= b) == (a * k >= b * k),
        (a == b) == (a * k == b * k),
{
    if a > b {
        assert(a * k > b * k) by (nonlinear_arith)
            requires
                a > b,
                k > 0,
        ;
    } else if a == b {
    } else {
        assert(a * k < b * k) by (nonlinear_arith)
            requires
                a < b,
                k > 0,
        ;
    }
}

/// Con el producto por 100 y la división exactos, `a * 100 / b` es un
/// porcentaje exacto: su valor por `b` es `a` por 100.
pub proof fn lema_por_ciento_exacto(a: Monto, b: Monto)
    requires
        a.wf(),
        b.wf(),
        producto_es_exacto(a, entero(100)),
        cociente_es_exacto(dec_producto(a, entero(100))->0, b),
    ensures
        op_cociente(dec_producto(a, entero(100)), Some(b)) matches Some(p) && p@ * b@ == a@ * 100
            * pot10(ESCALA_MAX as nat),
{
    let unidad: int = pot10(ESCALA_MAX as nat);
    lema_pot10_positiva(ESCALA_MAX as nat);
    lema_entero(100);
    let y = dec_producto(a, entero(100))->0;
    assert(a@ * (100 * unidad) == (a@ * 100) * unidad) by (nonlinear_arith);
    lema_comparar_por_factor(y@, a@ * 100, unidad);
    assert(y@ == a@ * 100);
    assert((a@ * 100) * unidad == a@ * 100 * unidad) by (nonlinear_arith);
}

/// Si `p * b == a * 100` (en unidades) con `b > 0`, `p` llega a `k` por
/// ciento exactamente cuando `100 * a` llega a `k * b`.
pub proof fn lema_umbral_por_ciento(p: int, a: int, b: int, k: int)
    requires
        b > 0,
        p * b == a * 100 * pot10(ESCALA_MAX as nat),
    ensures
        (p >= k * pot10(ESCALA_MAX as nat)) == (100 * a >= k * b),
{
    let unidad: int = pot10(ESCALA_MAX as nat);
    lema_pot10_positiva(ESCALA_MAX as nat);
    lema_comparar_por_factor(p, k * unidad, b);
    assert(a * 100 * unidad == (100 * a) * unidad) by (nonlinear_arith);
    assert((k * unidad) * b == (k * b) * unidad) by (nonlinear_arith);
    lema_comparar_por_factor(100 * a, k * b, unidad);
}

/// El signo de un monto es el de su mantisa.
pub proof fn lema_signo(m: Monto)
    requires
        m.wf(),
    ensures
        (m@ > 0) == (m.mantisa > 0),
        (m@ < 0) == (m.mantisa < 0),
        (m@ == 0) == (m.mantisa == 0),
{
    let p: int = pot10((ESCALA_MAX - m.escala) as nat);
    lema_pot10_positiva((ESCALA_MAX - m.escala) as nat);
    assert(m@ == m.mantisa * p);
    if m.mantisa > 0 {
        assert(m.mantisa * p > 0) by (nonlinear_arith)
            requires
                m.mantisa > 0,
                p >= 1,
        ;
    } else if m.mantisa < 0 {
        assert(m.mantisa * p < 0) by (nonlinear_arith)
            requires
                m.mantisa < 0,
                p >= 1,
        ;
    } else {
        assert(m.mantisa * p == 0) by (nonlinear_arith)
            requires
                m.mantisa == 0,
        ;
    }
}

/// Cambiar el signo de la mantisa cambia el signo del valor.
pub proof fn lema_vista_negada(m: Monto)
    requires
        m.wf(),
    ensures
        (Monto { mantisa: (-m.mantisa) as i128, escala: m.escala })@ == -m@,
{
    let p: int = pot10((ESCALA_MAX - m.escala) as nat);
    assert((-m.mantisa) * p == -(m.mantisa * p)) by (nonlinear_arith);
}

impl Monto {
    /// `Decimal::ZERO`.
    pub fn cero() -> (r: Monto)
        ensures
            r.wf(),
            r@ == 0,
            r == entero(0),
    {
        Monto { mantisa: 0, escala: 0 }
    }

    /// `Decimal::from(n)`: el entero `n` sin decimales.
    pub fn desde_entero(n: i64) -> (r: Monto)
        ensures
            r.wf(),
            r == entero(n as int),
    {
        Monto { mantisa: n as i128, escala: 0 }
    }

    /// `Decimal::new(n, escala)`: `n / 10^escala`.
    pub fn nuevo(n: i64, escala: u32) -> (r: Monto)
        requires
            escala <= ESCALA_MAX,
        ensures
            r.wf(),
            r.mantisa == n,
            r.escala == escala,
    {
        Monto { mantisa: n as i128, escala }
    }

    /// `Decimal::is_zero`.
    pub fn es_cero(&self) -> (r: bool)
        requires
            self.wf(),
        ensures
            r == (self@ == 0),
    {
        proof {
            lema_signo(*self);
        }
        self.mantisa == 0
    }

    /// `self > Decimal::ZERO`.
    pub fn es_positivo(&self) -> (r: bool)
        requires
            self.wf(),
        ensures
            r == (self@ > 0),
    {
        proof {
            lema_signo(*self);
        }
        self.mantisa > 0
    }

    /// `self < Decimal::ZERO`.
    pub fn es_negativo(&self) -> (r: bool)
        requires
            self.wf(),
        ensures
            r == (self@ < 0),
    {
        proof {
            lema_signo(*self);
        }
        self.mantisa < 0
    }

    /// `-self`: misma escala, mantisa con el signo contrario.
    pub fn negado(&self) -> (r: Monto)
        requires
            self.wf(),
        ensures
            r.wf(),
            r@ == -self@,
            r.escala == self.escala,
            r.mantisa == -self.mantisa,
    {
        let r = Monto { mantisa: -self.mantisa, escala: self.escala };
        proof {
            let p: int = pot10((ESCALA_MAX - self.escala) as nat);
            assert((-self.mantisa) * p == -(self.mantisa * p)) by (nonlinear_arith);
        }
        r
    }

    /// `self.max(Decimal::ZERO)`.
    pub fn max_cero(&self) -> (r: Monto)
        requires
            self.wf(),
        ensures
            r.wf(),
            r@ == if self@ < 0 { 0 } else { self@ },
    {
        if self.es_negativo() {
            Monto::cero()
        } else {
            *self
        }
    }
}


/// El valor de una operación encadenada es válido si existe.
pub open spec fn opcion_wf(o: Option<Monto>) -> bool {
    o matches Some(x) ==> x.wf()
}

pub open spec fn op_suma(a: Option<Monto>, b: Option<Monto>) -> Option<Monto> {
    match (a, b) {
        (Some(x), Some(y)) => dec_suma(x, y),
        _ => None,
    }
}

pub open spec fn op_resta(a: Option<Monto>, b: Option<Monto>) -> Option<Monto> {
    match (a, b) {
        (Some(x), Some(y)) => dec_resta(x, y),
        _ => None,
    }
}

pub open spec fn op_producto(a: Option<Monto>, b: Option<Monto>) -> Option<Monto> {
    match (a, b) {
        (Some(x), Some(y)) => dec_producto(x, y),
        _ => None,
    }
}

pub open spec fn op_cociente(a: Option<Monto>, b: Option<Monto>) -> Option<Monto> {
    match (a, b) {
        (Some(x), Some(y)) => dec_cociente(x, y),
        _ => None,
    }
}

pub open spec fn op_potencia(a: Option<Monto>, exp: int) -> Option<Monto> {
    match a {
        Some(x) => dec_potencia(x, exp),
        None => None,
    }
}

/// `a + b` sobre resultados intermedios que pueden haber desbordado.
pub fn suma_opt(a: Option<Monto>, b: Option<Monto>) -> (r: Option<Monto>)
    requires
        opcion_wf(a),
        opcion_wf(b),
    ensures
        r == op_suma(a, b),
        opcion_wf(r),
{
    match (a, b) {
        (Some(x), Some(y)) => sumar(x, y),
        _ => None,
    }
}

/// `a - b` sobre resultados intermedios que pueden haber desbordado.
pub fn resta_opt(a: Option<Monto>, b: Option<Monto>) -> (r: Option<Monto>)
    requires
        opcion_wf(a),
        opcion_wf(b),
    ensures
        r == op_resta(a, b),
        opcion_wf(r),
{
    match (a, b) {
        (Some(x), Some(y)) => restar(x, y),
        _ => None,
    }
}

/// `a * b` sobre resultados intermedios que pueden haber desbordado.
pub fn producto_opt(a: Option<Monto>, b: Option<Monto>) -> (r: Option<Monto>)
    requires
        opcion_wf(a),
        opcion_wf(b),
    ensures
        r == op_producto(a, b),
        opcion_wf(r),
{
    match (a, b) {
        (Some(x), Some(y)) => multiplicar(x, y),
        _ => None,
    }
}

/// `a / b` sobre resultados intermedios que pueden haber desbordado.
pub fn cociente_opt(a: Option<Monto>, b: Option<Monto>) -> (r: Option<Monto>)
    requires
        opcion_wf(a),
        opcion_wf(b),
    ensures
        r == op_cociente(a, b),
        opcion_wf(r),
{
    match (a, b) {
        (Some(x), Some(y)) => dividir(x, y),
        _ => None,
    }
}

/// `a^exp` sobre un resultado intermedio que puede haber desbordado.
pub fn potencia_opt(a: Option<Monto>, exp: i64) -> (r: Option<Monto>)
    requires
        opcion_wf(a),
    ensures
        r == op_potencia(a, exp as int),
        opcion_wf(r),
{
    match a {
        Some(x) => potencia(x, exp),
        None => None,
    }
}


/// Un monto escrito con exactamente `decimales` decimales, como lo hace
/// `Display` de `Decimal` con precisión (`{:.N}`): los decimales que
/// sobran se truncan (no se redondea), los que faltan se rellenan con
/// ceros, y lleva `-` delante si es negativo.
pub open spec fn monto_con_decimales(m: Monto, decimales: nat) -> Seq<char> {
    let a: int = if m.mantisa < 0 { -m.mantisa } else { m.mantisa as int };
    let q: int = a * pot10(decimales) / pot10(m.escala as nat);
    let entera: int = q / pot10(decimales);
    let fraccion: int = q % pot10(decimales);
    let signo: Seq<char> = if m.mantisa < 0 { seq!['-'] } else { Seq::<char>::empty() };
    let cola: Seq<char> = if decimales > 0 {
        seq!['.'] + relleno_ceros(fraccion as nat, decimales)
    } else {
        Seq::<char>::empty()
    };
    signo + digitos(entera as nat) + cola
}

/// `format!("{:.N}", d)` de `Decimal` (N = `decimales`): trunca o rellena
/// a N decimales, según `to_str_internal` del crate.
///
/// `to_str_internal` arma el texto (sin el signo) en un búfer fijo de 32
/// caracteres y entra en pánico si no cabe: hasta 29 dígitos enteros, el
/// punto y los decimales. Con a lo sumo 2 decimales siempre cabe.
#[verifier::external_body]
pub(crate) fn texto_monto(m: Monto, decimales: usize) -> (r: String)
    requires
        m.wf(),
        decimales <= 2,
    ensures
        r@ == monto_con_decimales(m, decimales as nat),
{
    format!("{:.*}", decimales, Decimal::from_i128_with_scale(m.mantisa, m.escala))
}

} // verus!
