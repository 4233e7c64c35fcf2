//! Configuración de arranque del servidor: el puerto, los orígenes que
//! admite CORS y la creación del primer usuario dev.
use vstd::prelude::*;
use crate::correo::{fin_de_segmento, lema_fin_de_segmento};
use crate::texto::{recortado, recortar};

verus! {

/// Puerto por defecto cuando `PORT` no está definida.
pub const PUERTO_POR_DEFECTO: u16 = 3000;

/// Orígenes por defecto de CORS: los de `trunk serve` en desarrollo.
pub const ORIGENES_POR_DEFECTO: &'static str = "http://localhost:8080,http://127.0.0.1:8080";

/// El carácter es un dígito ASCII.
pub open spec fn es_digito(c: char) -> bool {
    '0' <= c <= '9'
}

/// Valor decimal de una secuencia de dígitos.
pub open spec fn valor_digitos(s: Seq<char>) -> int
    decreases s.len(),
{
    if s.len() == 0 {
        0
    } else {
        valor_digitos(s.drop_last()) * 10 + (s.last() as int - '0' as int)
    }
}

/// Lo que acepta `str::parse::<u16>`: un `+` opcional y uno o más dígitos
/// cuyo valor cabe en 16 bits.
/// El texto sin su `+` inicial, si lo tiene.
pub open spec fn sin_signo(s: Seq<char>) -> Seq<char> {
    if s.len() > 0 && s[0] == '+' {
        s.drop_first()
    } else {
        s
    }
}

pub open spec fn numero_u16(s: Seq<char>) -> Option<u16> {
    let d = sin_signo(s);
    if d.len() == 0 || exists|i: int| 0 <= i < d.len() && !es_digito(#[trigger] d[i]) {
        None
    } else if valor_digitos(d) > u16::MAX {
        None
    } else {
        Some(valor_digitos(d) as u16)
    }
}

proof fn lema_valor_creciente(s: Seq<char>, n: int)
    requires
        0 <= n < s.len(),
        forall|i: int| 0 <= i < s.len() ==> es_digito(#[trigger] s[i]),
    ensures
        valor_digitos(s.subrange(0, n)) <= valor_digitos(s.subrange(0, n + 1)),
        valor_digitos(s.subrange(0, n + 1)) == valor_digitos(s.subrange(0, n)) * 10 + (s[n] as int
            - '0' as int),
{
    assert(s.subrange(0, n + 1).drop_last() =~= s.subrange(0, n));
    lema_valor_no_negativo(s.subrange(0, n));
}

proof fn lema_valor_no_negativo(s: Seq<char>)
    requires
        forall|i: int| 0 <= i < s.len() ==> es_digito(#[trigger] s[i]),
    ensures
        valor_digitos(s) >= 0,
    decreases s.len(),
{
    if s.len() > 0 {
        lema_valor_no_negativo(s.drop_last());
    }
}

proof fn lema_valor_monotono(s: Seq<char>, n: int, m: int)
    requires
        0 <= n <= m <= s.len(),
        forall|i: int| 0 <= i < s.len() ==> es_digito(#[trigger] s[i]),
    ensures
        valor_digitos(s.subrange(0, n)) <= valor_digitos(s.subrange(0, m)),
    decreases m - n,
{
    if n < m {
        lema_valor_monotono(s, n, m - 1);
        lema_valor_creciente(s, m - 1);
    }
}

/// `str::parse::<u16>`, escrito sobre caracteres.
pub fn leer_u16(s: &str) -> (r: Option<u16>)
    ensures
        r == numero_u16(s@),
{
    let n: usize = s.unicode_len();
    let mut i: usize = 0;
    if n > 0 && s.get_char(0) == '+' {
        i = 1;
    }
    let inicio: usize = i;
    let ghost d = s@.subrange(inicio as int, n as int);
    proof {
        if n > 0 && s@[0] == '+' {
            assert(d =~= s@.drop_first());
        } else {
            assert(d =~= s@);
        }
    }
    if inicio == n {
        return None;
    }
    let mut k: usize = inicio;
    while k < n
        invariant
            n == s@.len(),
            inicio <= k <= n,
            d == s@.subrange(inicio as int, n as int),
            d == sin_signo(s@),
            forall|j: int| 0 <= j < k - inicio ==> es_digito(#[trigger] d[j]),
        decreases n - k,
    {
        let c = s.get_char(k);
        if !('0' <= c && c <= '9') {
            proof {
                assert(d[k - inicio] == c);
                assert(!es_digito(d[k - inicio]));
                assert(exists|x: int| 0 <= x < d.len() && !es_digito(#[trigger] d[x]));
            }
            return None;
        }
        k = k + 1;
    }
    let mut valor: u32 = 0;
    let mut j: usize = inicio;
    while j < n
        invariant
            n == s@.len(),
            inicio <= j <= n,
            d == s@.subrange(inicio as int, n as int),
            d == sin_signo(s@),
            forall|x: int| 0 <= x < d.len() ==> es_digito(#[trigger] d[x]),
            valor as int == valor_digitos(d.subrange(0, j - inicio)),
            valor <= u16::MAX,
        decreases n - j,
    {
        let c = s.get_char(j);
        proof {
            lema_valor_creciente(d, j - inicio);
            assert(d[j - inicio] == c);
        }
        let digito: u32 = (c as u32) - ('0' as u32);
        let nuevo: u32 = valor * 10 + digito;
        if nuevo > 65535 {
            proof {
                lema_valor_monotono(d, j - inicio + 1, d.len() as int);
                assert(d.subrange(0, d.len() as int) =~= d);
                assert(valor_digitos(d) > u16::MAX);
            }
            return None;
        }
        valor = nuevo;
        j = j + 1;
    }
    proof {
        assert(d.subrange(0, d.len() as int) =~= d);
    }
    Some(valor as u16)
}

/// Puerto del servidor: `PUERTO_POR_DEFECTO` si `PORT` no está definida
/// (`valor` es `None`); si está, debe ser un número de 16 bits, y si no lo
/// es el arranque falla con un mensaje que cita el valor recibido.
pub fn puerto(valor: Option<&str>) -> (r: Result<u16, String>)
    ensures
        valor is None ==> r == Ok::<u16, String>(PUERTO_POR_DEFECTO),
        valor matches Some(v) ==> match numero_u16(v@) {
            Some(p) => r == Ok::<u16, String>(p),
            None => r matches Err(m) && m@ == "PORT tiene un valor inválido: '"@ + v@
                + "' (se esperaba un número entre 1 y 65535)"@,
        },
{
    match valor {
        None => Ok(PUERTO_POR_DEFECTO),
        Some(v) => match leer_u16(v) {
            Some(p) => Ok(p),
            None => Err(
                String::from_str("PORT tiene un valor inválido: '").concat(v).concat(
                    "' (se esperaba un número entre 1 y 65535)",
                ),
            ),
        },
    }
}

/// Trozos de `s` separados por comas, en orden (sin quitar los vacíos).
pub open spec fn partes_por_coma(s: Seq<char>) -> Seq<Seq<char>>
    decreases s.len(),
{
    let f = fin_de_segmento(s, 0);
    proof {
        lema_fin_de_segmento(s, 0);
    }
    if f >= s.len() {
        seq![s]
    } else {
        seq![s.subrange(0, f)] + partes_por_coma(s.subrange(f + 1, s.len() as int))
    }
}

/// Cada trozo sin espacios alrededor, descartando los que quedan vacíos.
pub open spec fn origenes_de_partes(ps: Seq<Seq<char>>) -> Seq<Seq<char>>
    decreases ps.len(),
{
    if ps.len() == 0 {
        Seq::<Seq<char>>::empty()
    } else {
        let t = recortado(ps[0]);
        if t.len() > 0 {
            seq![t] + origenes_de_partes(ps.drop_first())
        } else {
            origenes_de_partes(ps.drop_first())
        }
    }
}

/// Los orígenes de una lista separada por comas.
pub open spec fn origenes_spec(s: Seq<char>) -> Seq<Seq<char>> {
    origenes_de_partes(partes_por_coma(s))
}

/// Los textos de una lista de `String`.
pub open spec fn textos(v: Seq<String>) -> Seq<Seq<char>> {
    v.map_values(|o: String| o@)
}

/// El primer trozo recortado, como lista de cero o un orígenes.
pub open spec fn origen_de_trozo(t: Seq<char>) -> Seq<Seq<char>> {
    if recortado(t).len() > 0 {
        seq![recortado(t)]
    } else {
        Seq::<Seq<char>>::empty()
    }
}

/// Un paso de la separación: los orígenes de `s` son los de su primer
/// trozo seguidos de los del resto (si hay resto).
proof fn lema_origenes_paso(s: Seq<char>, f: int)
    requires
        f == fin_de_segmento(s, 0),
    ensures
        f >= s.len() ==> origenes_spec(s) == origen_de_trozo(s),
        f < s.len() ==> origenes_spec(s) == origen_de_trozo(s.subrange(0, f)) + origenes_spec(
            s.subrange(f + 1, s.len() as int),
        ),
{
    lema_fin_de_segmento(s, 0);
    let ps = partes_por_coma(s);
    if f >= s.len() {
        assert(ps == seq![s]);
        assert(ps.drop_first() =~= Seq::<Seq<char>>::empty());
        assert(origenes_de_partes(ps.drop_first()) =~= Seq::<Seq<char>>::empty());
        assert(origenes_spec(s) =~= origen_de_trozo(s));
    } else {
        let cola = partes_por_coma(s.subrange(f + 1, s.len() as int));
        assert(ps == seq![s.subrange(0, f)] + cola);
        assert(ps.drop_first() =~= cola);
        assert(ps[0] == s.subrange(0, f));
        assert(origenes_spec(s) =~= origen_de_trozo(s.subrange(0, f)) + origenes_de_partes(cola));
    }
}

/// Orígenes que CORS deja llamar a la API: los de `FRONTEND_ORIGIN`
/// (`valor`, lista separada por comas) o, si no está definida, los de
/// desarrollo. Cada uno sin espacios alrededor y sin vacíos.
pub fn origenes_cors(valor: Option<&str>) -> (r: Vec<String>)
    ensures
        textos(r@) == origenes_spec(
            match valor {
                Some(v) => v@,
                None => ORIGENES_POR_DEFECTO@,
            },
        ),
{
    let lista: &str = match valor {
        Some(v) => v,
        None => ORIGENES_POR_DEFECTO,
    };
    let mut resto: &str = lista;
    let mut salida: Vec<String> = Vec::new();
    assert(textos(salida@) =~= Seq::<Seq<char>>::empty());
    loop
        invariant_except_break
            origenes_spec(lista@) == textos(salida@) + origenes_spec(resto@),
        ensures
            origenes_spec(lista@) == textos(salida@),
        decreases resto@.len(),
    {
        let n: usize = resto.unicode_len();
        let mut i: usize = 0;
        proof {
            lema_fin_de_segmento(resto@, 0);
        }
        while i < n && resto.get_char(i) != ','
            invariant
                n == resto@.len(),
                0 <= i <= n,
                fin_de_segmento(resto@, i as int) == fin_de_segmento(resto@, 0),
            decreases n - i,
        {
            i = i + 1;
        }
        let trozo = recortar(resto.substring_char(0, i));
        let ghost antes = salida@;
        if trozo.unicode_len() > 0 {
            salida.push(String::from_str(trozo));
        }
        proof {
            lema_origenes_paso(resto@, i as int);
            assert(textos(salida@) =~= textos(antes) + origen_de_trozo(resto@.subrange(0, i as int)));
        }
        if i >= n {
            proof {
                assert(resto@.subrange(0, i as int) =~= resto@);
                assert(origenes_spec(lista@) =~= textos(salida@));
            }
            break;
        }
        resto = resto.substring_char(i + 1, n);
    }
    salida
}

/// Qué hacer al arrancar respecto del usuario dev inicial: nada si ya
/// existe uno (`Ok(None)`); si no, crearlo con `DEV_EMAIL` y
/// `DEV_PASSWORD` (`Ok(Some((email, password)))`), que entonces son
/// obligatorias.
pub fn datos_dev_inicial(hay_dev: bool, email: Option<&str>, password: Option<&str>) -> (r: Result<
    Option<(String, String)>,
    String,
>)
    ensures
        hay_dev ==> r matches Ok(None),
        !hay_dev && email is None ==> (r matches Err(m)
            && m@ == "No existe ningún dev y falta DEV_EMAIL en el .env para crearlo"@),
        !hay_dev && email is Some && password is None ==> (r matches Err(m)
            && m@ == "No existe ningún dev y falta DEV_PASSWORD en el .env para crearlo"@),
        !hay_dev ==> (email matches Some(e) ==> (password matches Some(p) ==> (r matches Ok(Some(x))
            && x.0@ == e@ && x.1@ == p@))),
{
    if hay_dev {
        return Ok(None);
    }
    let e = match email {
        Some(e) => e,
        None => {
            return Err(String::from_str("No existe ningún dev y falta DEV_EMAIL en el .env para crearlo"));
        },
    };
    let p = match password {
        Some(p) => p,
        None => {
            return Err(String::from_str("No existe ningún dev y falta DEV_PASSWORD en el .env para crearlo"));
        },
    };
    Ok(Some((String::from_str(e), String::from_str(p))))
}

} // verus!
