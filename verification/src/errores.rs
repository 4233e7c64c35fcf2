//! Tipo de error único de la aplicación y su conversión a una respuesta
//! HTTP (código y mensaje visible para el cliente).
use vstd::prelude::*;

verus! {

/// Errores que una operación puede devolver al cliente. Cada variante
/// corresponde a un código HTTP; las que llevan texto llevan el mensaje
/// que verá el cliente, salvo `Interno`, cuyo detalle nunca sale del
/// servidor.
#[derive(Debug)]
pub enum AppError {
    /// 401: no autenticado o credenciales/token inválidos.
    NoAutorizado(String),
    /// 403: autenticado, pero sin permiso para esta operación.
    Prohibido(String),
    /// 404: el recurso no existe (o no es visible para este usuario).
    NoEncontrado(String),
    /// 409: conflicto con el estado actual (por ejemplo, email duplicado).
    Conflicto(String),
    /// 422: los datos recibidos no pasan las validaciones.
    NoProcesable(String),
    /// 429: demasiados intentos; la cuenta está bloqueada temporalmente.
    DemasiadosIntentos,
    /// 500: error interno; el detalle solo va a los registros del servidor.
    Interno(String),
}

pub open spec fn codigo_http_spec(e: AppError) -> u16 {
    match e {
        AppError::NoAutorizado(_) => 401,
        AppError::Prohibido(_) => 403,
        AppError::NoEncontrado(_) => 404,
        AppError::Conflicto(_) => 409,
        AppError::NoProcesable(_) => 422,
        AppError::DemasiadosIntentos => 429,
        AppError::Interno(_) => 500,
    }
}

/// Mensaje del cuerpo `{"error": ...}` que ve el cliente.
pub open spec fn mensaje_cliente_spec(e: AppError) -> Seq<char> {
    match e {
        AppError::NoAutorizado(m) => m@,
        AppError::Prohibido(m) => m@,
        AppError::NoEncontrado(m) => m@,
        AppError::Conflicto(m) => m@,
        AppError::NoProcesable(m) => m@,
        AppError::DemasiadosIntentos => "Demasiados intentos, espera unos minutos"@,
        AppError::Interno(_) => "Error interno del servidor"@,
    }
}

impl AppError {
    /// Código HTTP de la respuesta.
    pub fn codigo_http(&self) -> (r: u16)
        ensures
            r == codigo_http_spec(*self),
    {
        match self {
            AppError::NoAutorizado(_) => 401,
            AppError::Prohibido(_) => 403,
            AppError::NoEncontrado(_) => 404,
            AppError::Conflicto(_) => 409,
            AppError::NoProcesable(_) => 422,
            AppError::DemasiadosIntentos => 429,
            AppError::Interno(_) => 500,
        }
    }

    /// Mensaje del cuerpo `{"error": ...}`. Un error interno nunca expone
    /// su detalle: siempre responde el mismo texto genérico.
    pub fn mensaje_para_cliente(&self) -> (r: String)
        ensures
            r@ == mensaje_cliente_spec(*self),
            match *self {
                AppError::NoAutorizado(m) => r@ == m@,
                AppError::Prohibido(m) => r@ == m@,
                AppError::NoEncontrado(m) => r@ == m@,
                AppError::Conflicto(m) => r@ == m@,
                AppError::NoProcesable(m) => r@ == m@,
                AppError::DemasiadosIntentos => r@ == "Demasiados intentos, espera unos minutos"@,
                AppError::Interno(_) => r@ == "Error interno del servidor"@,
            },
    {
        match self {
            AppError::NoAutorizado(m) => m.clone(),
            AppError::Prohibido(m) => m.clone(),
            AppError::NoEncontrado(m) => m.clone(),
            AppError::Conflicto(m) => m.clone(),
            AppError::NoProcesable(m) => m.clone(),
            AppError::DemasiadosIntentos => String::from_str("Demasiados intentos, espera unos minutos"),
            AppError::Interno(_) => String::from_str("Error interno del servidor"),
        }
    }

    /// El detalle de un error interno, para los registros del servidor.
    pub fn detalle_interno(&self) -> (r: Option<String>)
        ensures
            match *self {
                AppError::Interno(d) => r matches Some(x) && x@ == d@,
                _ => r is None,
            },
    {
        match self {
            AppError::Interno(d) => Some(d.clone()),
            _ => None,
        }
    }
}


/// Error para una cuenta que desborda la precisión de `Decimal`: se
/// responde como error interno en lugar de abortar.
pub fn error_aritmetico() -> (r: AppError)
    ensures
        r matches AppError::Interno(_),
{
    AppError::Interno(String::from_str("desbordamiento aritmético"))
}

/// 422 con el mensaje dado.
pub fn no_procesable(mensaje: &str) -> (r: AppError)
    ensures
        r matches AppError::NoProcesable(m) && m@ == mensaje@,
{
    AppError::NoProcesable(String::from_str(mensaje))
}

/// 404 con el mensaje dado.
pub fn no_encontrado(mensaje: &str) -> (r: AppError)
    ensures
        r matches AppError::NoEncontrado(m) && m@ == mensaje@,
{
    AppError::NoEncontrado(String::from_str(mensaje))
}

/// 403 con el mensaje dado.
pub fn prohibido(mensaje: &str) -> (r: AppError)
    ensures
        r matches AppError::Prohibido(m) && m@ == mensaje@,
{
    AppError::Prohibido(String::from_str(mensaje))
}

/// 401 con el mensaje dado.
pub fn no_autorizado(mensaje: &str) -> (r: AppError)
    ensures
        r matches AppError::NoAutorizado(m) && m@ == mensaje@,
{
    AppError::NoAutorizado(String::from_str(mensaje))
}

/// 409 con el mensaje dado.
pub fn conflicto(mensaje: &str) -> (r: AppError)
    ensures
        r matches AppError::Conflicto(m) && m@ == mensaje@,
{
    AppError::Conflicto(String::from_str(mensaje))
}

/// 500 con el detalle dado (que no llega al cliente).
pub fn interno(detalle: &str) -> (r: AppError)
    ensures
        r matches AppError::Interno(m) && m@ == detalle@,
{
    AppError::Interno(String::from_str(detalle))
}

/// `r` es un error 422 con el mensaje `m`.
pub open spec fn es_no_procesable<T>(r: Result<T, AppError>, m: Seq<char>) -> bool {
    r matches Err(AppError::NoProcesable(x)) && x@ == m
}

/// `r` es un error 404 con el mensaje `m`.
pub open spec fn es_no_encontrado<T>(r: Result<T, AppError>, m: Seq<char>) -> bool {
    r matches Err(AppError::NoEncontrado(x)) && x@ == m
}

/// `r` es un error 403 con el mensaje `m`.
pub open spec fn es_prohibido<T>(r: Result<T, AppError>, m: Seq<char>) -> bool {
    r matches Err(AppError::Prohibido(x)) && x@ == m
}

/// `r` es un error 401 con el mensaje `m`.
pub open spec fn es_no_autorizado<T>(r: Result<T, AppError>, m: Seq<char>) -> bool {
    r matches Err(AppError::NoAutorizado(x)) && x@ == m
}

/// `r` es un error interno.
pub open spec fn es_interno<T>(r: Result<T, AppError>) -> bool {
    r matches Err(AppError::Interno(_))
}

} // verus!
