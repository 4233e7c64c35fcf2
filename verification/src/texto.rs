//! Operaciones de texto que usan las validaciones: comparar, recortar
//! espacios, buscar un carácter y pasar a minúsculas.
use vstd::prelude::*;

verus! {

/// `char::is_whitespace`: la propiedad Unicode `White_Space`.
pub open spec fn es_espacio_spec(c: char) -> bool {
    let n = c as u32;
    ||| 0x09 <= n <= 0x0D
    ||| n == 0x20
    ||| n == 0x85
    ||| n == 0xA0
    ||| n == 0x1680
    ||| 0x2000 <= n <= 0x200A
    ||| n == 0x2028
    ||| n == 0x2029
    ||| n == 0x202F
    ||| n == 0x205F
    ||| n == 0x3000
}

/// `char::is_whitespace`.
pub fn es_espacio(c: char) -> (r: bool)
    ensures
        r == es_espacio_spec(c),
{
    let n: u32 = c as u32;
    (0x09 <= n && n <= 0x0D) || n == 0x20 || n == 0x85 || n == 0xA0 || n == 0x1680 || (0x2000
        <= n && n <= 0x200A) || n == 0x2028 || n == 0x2029 || n == 0x202F || n == 0x205F || n
        == 0x3000
}

/// Posición del primer carácter que no es espacio (o `s.len()`).
pub open spec fn inicio_sin_espacios(s: Seq<char>, desde: int) -> int
    decreases s.len() - desde,
{
    if desde < 0 || desde >= s.len() {
        s.len() as int
    } else if es_espacio_spec(s[desde]) {
        inicio_sin_espacios(s, desde + 1)
    } else {
        desde
    }
}

/// Posición siguiente al último carácter que no es espacio, sin bajar de
/// `hasta_min`.
pub open spec fn fin_sin_espacios(s: Seq<char>, hasta: int, hasta_min: int) -> int
    decreases hasta - hasta_min,
{
    if hasta <= hasta_min || hasta > s.len() {
        hasta_min
    } else if es_espacio_spec(s[hasta - 1]) {
        fin_sin_espacios(s, hasta - 1, hasta_min)
    } else {
        hasta
    }
}

/// `str::trim`: el texto sin espacios al principio ni al final.
pub open spec fn recortado(s: Seq<char>) -> Seq<char> {
    let i = inicio_sin_espacios(s, 0);
    s.subrange(i, fin_sin_espacios(s, s.len() as int, i))
}

/// Todos los caracteres son espacios (o no hay ninguno).
pub open spec fn solo_espacios(s: Seq<char>) -> bool {
    forall|k: int| 0 <= k < s.len() ==> #[trigger] es_espacio_spec(s[k])
}

proof fn lema_inicio(s: Seq<char>, desde: int)
    requires
        0 <= desde <= s.len(),
    ensures
        desde <= inicio_sin_espacios(s, desde) <= s.len(),
        forall|k: int|
            desde <= k < inicio_sin_espacios(s, desde) ==> #[trigger] es_espacio_spec(s[k]),
        inicio_sin_espacios(s, desde) < s.len() ==> !es_espacio_spec(
            s[inicio_sin_espacios(s, desde)],
        ),
    decreases s.len() - desde,
{
    if desde < s.len() && es_espacio_spec(s[desde]) {
        lema_inicio(s, desde + 1);
    }
}

proof fn lema_fin(s: Seq<char>, hasta: int, hasta_min: int)
    requires
        0 <= hasta_min <= hasta <= s.len(),
    ensures
        hasta_min <= fin_sin_espacios(s, hasta, hasta_min) <= hasta,
        forall|k: int|
            fin_sin_espacios(s, hasta, hasta_min) <= k < hasta ==> #[trigger] es_espacio_spec(
                s[k],
            ),
        fin_sin_espacios(s, hasta, hasta_min) > hasta_min ==> !es_espacio_spec(
            s[fin_sin_espacios(s, hasta, hasta_min) - 1],
        ),
    decreases hasta - hasta_min,
{
    if hasta > hasta_min && es_espacio_spec(s[hasta - 1]) {
        lema_fin(s, hasta - 1, hasta_min);
    }
}

/// Un texto recortado queda vacío exactamente cuando solo tenía espacios.
pub proof fn lema_recortado_vacio(s: Seq<char>)
    ensures
        (recortado(s).len() == 0) == solo_espacios(s),
{
    lema_inicio(s, 0);
    let i = inicio_sin_espacios(s, 0);
    lema_fin(s, s.len() as int, i);
    if i < s.len() {
        assert(!es_espacio_spec(s[i]));
        assert(fin_sin_espacios(s, s.len() as int, i) > i) by {
            if fin_sin_espacios(s, s.len() as int, i) == i {
                assert(es_espacio_spec(s[i]));
            }
        }
    }
}

/// `str::trim`: quita los espacios Unicode del principio y del final.
pub fn recortar(s: &str) -> (r: &str)
    ensures
        r@ == recortado(s@),
{
    let n: usize = s.unicode_len();
    let mut i: usize = 0;
    while i < n && es_espacio(s.get_char(i))
        invariant
            n == s@.len(),
            0 <= i <= n,
            inicio_sin_espacios(s@, i as int) == inicio_sin_espacios(s@, 0),
        decreases n - i,
    {
        i = i + 1;
    }
    let mut j: usize = n;
    while j > i && es_espacio(s.get_char(j - 1))
        invariant
            n == s@.len(),
            i <= j <= n,
            i == inicio_sin_espacios(s@, 0),
            fin_sin_espacios(s@, j as int, i as int) == fin_sin_espacios(s@, n as int, i as int),
        decreases j - i,
    {
        j = j - 1;
    }
    s.substring_char(i, j)
}

/// `str::contains(c)` para un carácter.
pub fn contiene(s: &str, c: char) -> (r: bool)
    ensures
        r == s@.contains(c),
{
    let n: usize = s.unicode_len();
    let mut i: usize = 0;
    while i < n
        invariant
            n == s@.len(),
            0 <= i <= n,
            forall|k: int| 0 <= k < i ==> s@[k] != c,
        decreases n - i,
    {
        if s.get_char(i) == c {
            assert(s@[i as int] == c);
            return true;
        }
        i = i + 1;
    }
    false
}

/// Los dos textos tienen los mismos caracteres.
pub fn mismo_texto(a: &str, b: &str) -> (r: bool)
    ensures
        r == (a@ == b@),
{
    let x = String::from_str(a);
    let y = String::from_str(b);
    x == y
}

/// Lo que devuelve `str::to_lowercase` (la tabla de minúsculas de Unicode).
pub uninterp spec fn a_minusculas(s: Seq<char>) -> Seq<char>;

/// `str::to_lowercase`: el texto en minúsculas según Unicode. La tabla de
/// conversión queda sin describir; solo se le da nombre.
#[verifier::external_body]
pub(crate) fn minusculas(s: &str) -> (r: String)
    ensures
        r@ == a_minusculas(s@),
{
    s.to_lowercase()
}


/// El dígito decimal `d` (0-9) como carácter.
pub open spec fn char_digito(d: int) -> char {
    (48 + d) as char
}

/// Los dígitos decimales de `n`, sin ceros a la izquierda.
pub open spec fn digitos(n: nat) -> Seq<char>
    decreases n,
{
    if n < 10 {
        seq![char_digito(n as int)]
    } else {
        digitos(n / 10) + seq![char_digito((n % 10) as int)]
    }
}

/// `n` escrito en decimal, con `-` delante si es negativo (lo que
/// escribe `Display` para los enteros).
pub open spec fn texto_decimal(n: int) -> Seq<char> {
    if n < 0 {
        seq!['-'] + digitos((-n) as nat)
    } else {
        digitos(n as nat)
    }
}

/// El dígito `d` como texto de un carácter.
fn digito_texto(d: u64) -> (r: &'static str)
    requires
        d < 10,
    ensures
        r@ == seq![char_digito(d as int)],
{
    proof {
        reveal_strlit("0");
        reveal_strlit("1");
        reveal_strlit("2");
        reveal_strlit("3");
        reveal_strlit("4");
        reveal_strlit("5");
        reveal_strlit("6");
        reveal_strlit("7");
        reveal_strlit("8");
        reveal_strlit("9");
    }
    let r = match d {
        0 => "0",
        1 => "1",
        2 => "2",
        3 => "3",
        4 => "4",
        5 => "5",
        6 => "6",
        7 => "7",
        8 => "8",
        _ => "9",
    };
    assert(r@ =~= seq![char_digito(d as int)]);
    r
}

/// `n` en decimal.
pub fn texto_natural(n: u64) -> (r: String)
    ensures
        r@ == digitos(n as nat),
    decreases n,
{
    if n < 10 {
        String::from_str(digito_texto(n))
    } else {
        let prefijo = texto_natural(n / 10);
        prefijo.concat(digito_texto(n % 10))
    }
}

/// `n` en decimal, con signo si es negativo.
pub fn texto_entero(n: i64) -> (r: String)
    ensures
        r@ == texto_decimal(n as int),
{
    if n < 0 {
        let m: u64 = if n == i64::MIN {
            9223372036854775808u64
        } else {
            (-n) as u64
        };
        proof {
            reveal_strlit("-");
        }
        let r = String::from_str("-").concat(texto_natural(m).as_str());
        assert(r@ =~= seq!['-'] + digitos((-n) as nat));
        r
    } else {
        texto_natural(n as u64)
    }
}

/// Un número de 0 a 99 con dos dígitos (cero a la izquierda), como
/// `%d` y `%m` de `strftime`.
pub open spec fn dos_digitos(n: int) -> Seq<char> {
    seq![char_digito(n / 10), char_digito(n % 10)]
}

/// `n` (0-99) con dos dígitos.
pub fn texto_dos_digitos(n: u32) -> (r: String)
    requires
        n < 100,
    ensures
        r@ == dos_digitos(n as int),
{
    let r = String::from_str(digito_texto((n / 10) as u64)).concat(digito_texto((n % 10) as u64));
    assert(r@ =~= dos_digitos(n as int));
    r
}


/// `n` en decimal con ceros a la izquierda hasta `ancho` dígitos (si
/// tiene menos).
pub open spec fn relleno_ceros(n: nat, ancho: nat) -> Seq<char> {
    let d = digitos(n);
    if d.len() >= ancho {
        d
    } else {
        Seq::new((ancho - d.len()) as nat, |i: int| '0') + d
    }
}

} // verus!
