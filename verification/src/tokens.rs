//! Tokens opacos (refresh tokens, invitaciones, recuperación de
//! contraseña): una cadena aleatoria en hexadecimal. El valor plano solo
//! lo ve el cliente; en la base se guarda únicamente su hash SHA-256.
use vstd::prelude::*;
use rand::RngCore;
use sha2::{Digest, Sha256};
use vstd::string::StringSliceAdditionalSpecFns;

verus! {

/// Días de vida de un refresh token.
pub const DURACION_REFRESH_DIAS: i64 = 30;
/// Horas de vida de un link de invitación.
pub const DURACION_INVITACION_HORAS: i64 = 72;
/// Horas de vida de un link de recuperación de contraseña (corto: el
/// flujo permite cambiar la contraseña).
pub const DURACION_RESET_HORAS: i64 = 1;
/// Bytes aleatorios de un token opaco.
pub const BYTES_DE_TOKEN: usize = 32;

/// Microsegundos en una hora; los instantes se miden en microsegundos
/// desde la época Unix.
pub const MICROS_POR_HORA: i64 = 3_600_000_000;
/// Microsegundos en un día.
pub const MICROS_POR_DIA: i64 = 86_400_000_000;

/// Dígito hexadecimal en minúscula de un valor entre 0 y 15.
pub open spec fn digito_hex(n: int) -> char {
    if n < 10 {
        (48 + n) as char
    } else {
        (87 + n) as char
    }
}

/// Codificación hexadecimal en minúsculas: dos dígitos por byte, el más
/// significativo primero.
pub open spec fn hex_texto(b: Seq<u8>) -> Seq<char>
    decreases b.len(),
{
    if b.len() == 0 {
        Seq::<char>::empty()
    } else {
        hex_texto(b.drop_last()) + seq![digito_hex(b.last() as int / 16), digito_hex(b.last() as int % 16)]
    }
}

/// La codificación hexadecimal tiene dos caracteres por byte.
pub proof fn lema_largo_hex(b: Seq<u8>)
    ensures
        hex_texto(b).len() == 2 * b.len(),
    decreases b.len(),
{
    if b.len() > 0 {
        lema_largo_hex(b.drop_last());
    }
}

/// `hex::encode`: cada byte como dos dígitos hexadecimales en minúscula.
#[verifier::external_body]
fn hex_de(bytes: &[u8]) -> (r: String)
    ensures
        r@ == hex_texto(bytes@),
{
    hex::encode(bytes)
}

/// Lo que devuelve SHA-256 (FIPS 180-4) para unos bytes.
pub uninterp spec fn sha256_de(datos: Seq<u8>) -> Seq<u8>;

/// `Sha256::digest` del crate `sha2`: el resumen SHA-256 de los bytes,
/// siempre de 32 bytes. El algoritmo queda sin describir; solo se le da
/// nombre.
#[verifier::external_body]
fn resumen_sha256(datos: &[u8]) -> (r: Vec<u8>)
    ensures
        r@ == sha256_de(datos@),
        r@.len() == 32,
{
    Sha256::digest(datos).to_vec()
}

/// `OsRng::fill_bytes` de `rand`: 32 bytes del generador criptográfico
/// del sistema operativo. Nada se afirma de su valor; si el sistema no
/// puede dar aleatoriedad, `rand` entra en pánico.
#[verifier::external_body]
fn bytes_aleatorios() -> (r: Vec<u8>)
    ensures
        r@.len() == BYTES_DE_TOKEN,
{
    let mut bytes = [0u8; 32];
    rand::rngs::OsRng.fill_bytes(&mut bytes);
    bytes.to_vec()
}

/// Genera un token aleatorio de 32 bytes en formato hexadecimal (64
/// caracteres).
pub fn generar_token_opaco() -> (r: String)
    ensures
        exists|b: Seq<u8>| b.len() == BYTES_DE_TOKEN && r@ == #[trigger] hex_texto(b),
        r@.len() == 2 * BYTES_DE_TOKEN,
{
    let bytes = bytes_aleatorios();
    let r = hex_de(bytes.as_slice());
    proof {
        lema_largo_hex(bytes@);
    }
    r
}

/// Hash SHA-256 de un token (de sus bytes UTF-8), en hexadecimal. Es lo
/// único que se guarda en la base.
pub fn hash_token(token: &str) -> (r: String)
    ensures
        r@ == hex_texto(sha256_de(token.spec_bytes())),
        r@.len() == 64,
{
    let resumen = resumen_sha256(token.as_bytes());
    let r = hex_de(resumen.as_slice());
    proof {
        lema_largo_hex(resumen@);
    }
    r
}

/// Instante de vencimiento de un refresh token emitido en `ahora`.
pub fn vencimiento_refresh(ahora: i64) -> (r: i64)
    requires
        ahora <= i64::MAX - DURACION_REFRESH_DIAS * MICROS_POR_DIA,
    ensures
        r == ahora + DURACION_REFRESH_DIAS * MICROS_POR_DIA,
{
    ahora + DURACION_REFRESH_DIAS * MICROS_POR_DIA
}

/// Instante de vencimiento de una invitación creada en `ahora`.
pub fn vencimiento_invitacion(ahora: i64) -> (r: i64)
    requires
        ahora <= i64::MAX - DURACION_INVITACION_HORAS * MICROS_POR_HORA,
    ensures
        r == ahora + DURACION_INVITACION_HORAS * MICROS_POR_HORA,
{
    ahora + DURACION_INVITACION_HORAS * MICROS_POR_HORA
}

/// Instante de vencimiento de un link de recuperación creado en `ahora`.
pub fn vencimiento_reset(ahora: i64) -> (r: i64)
    requires
        ahora <= i64::MAX - DURACION_RESET_HORAS * MICROS_POR_HORA,
    ensures
        r == ahora + DURACION_RESET_HORAS * MICROS_POR_HORA,
{
    ahora + DURACION_RESET_HORAS * MICROS_POR_HORA
}

} // verus!
