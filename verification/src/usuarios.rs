//! Reglas de las cuentas de usuario: formato del email, reglas de la
//! contraseña y el hash bcrypt con que se guarda.
use vstd::prelude::*;
use vstd::utf8::encode_utf8;
use vstd::string::StringSliceAdditionalSpecFns;
use crate::errores::{AppError, es_no_procesable, no_procesable};
use crate::texto::{recortado, recortar, minusculas, a_minusculas, contiene};

verus! {

/// Error de la biblioteca `bcrypt` (hash inválido, costo fuera de rango,
/// fallo del generador aleatorio...).
#[verifier::external_type_specification]
#[verifier::external_body]
pub struct ExBcryptError(bcrypt::BcryptError);

/// Lo que responde `bcrypt::verify` para una contraseña y un hash:
/// `Some(coinciden)` o `None` si el hash no se puede leer.
pub uninterp spec fn bcrypt_verifica(password: Seq<char>, hash: Seq<char>) -> Option<bool>;

/// `bcrypt::verify`: recalcula el hash de la contraseña (sus bytes UTF-8)
/// con la sal y el costo del hash guardado y los compara. Es una función
/// de sus dos argumentos; el resultado queda nombrado, no descrito.
#[verifier::external_body]
pub(crate) fn verificar_bcrypt(password: &str, hash: &str) -> (r: Result<bool, bcrypt::BcryptError>)
    ensures
        match r {
            Ok(b) => bcrypt_verifica(password@, hash@) == Some(b),
            Err(_) => bcrypt_verifica(password@, hash@) is None,
        },
{
    bcrypt::verify(password, hash)
}

/// `bcrypt::hash` con `DEFAULT_COST`: la sal sale del generador del
/// sistema, así que el texto devuelto no se puede predecir. Lo que sí
/// afirma el código del crate (y su prueba `can_verify_own_generated`):
/// un hash recién generado verifica con la misma contraseña.
#[verifier::external_body]
pub(crate) fn hashear_bcrypt(password: &str) -> (r: Result<String, bcrypt::BcryptError>)
    ensures
        r matches Ok(h) ==> bcrypt_verifica(password@, h@) == Some(true),
{
    bcrypt::hash(password, bcrypt::DEFAULT_COST)
}

/// El texto (`Display`) de un error de `bcrypt`. Nada se afirma de él.
#[verifier::external_body]
pub(crate) fn texto_error_bcrypt(e: &bcrypt::BcryptError) -> (r: String) {
    format!("{}", e)
}

/// Un error de `bcrypt` se vuelve un 500 con el detalle `bcrypt: ...`.
pub fn error_bcrypt(e: &bcrypt::BcryptError) -> (r: AppError)
    ensures
        r matches AppError::Interno(d) && d@.len() >= 8 && d@.subrange(0, 8) == "bcrypt: "@,
{
    let texto = texto_error_bcrypt(e);
    let d = String::from_str("bcrypt: ").concat(texto.as_str());
    proof {
        reveal_strlit("bcrypt: ");
        assert(d@.subrange(0, 8) =~= "bcrypt: "@);
    }
    AppError::Interno(d)
}

/// Caracteres mínimos de una contraseña.
pub const MIN_CARACTERES_PASSWORD: usize = 12;
/// Bytes máximos de una contraseña: bcrypt ignora en silencio lo que
/// pase de 72 bytes.
pub const MAX_BYTES_PASSWORD: usize = 72;

/// Reglas de contraseña: al menos 12 caracteres y como mucho 72 bytes
/// (UTF-8).
pub fn validar_password(password: &str) -> (r: Result<(), AppError>)
    ensures
        password@.len() < 12 ==> es_no_procesable(r, "La contraseña debe tener al menos 12 caracteres"@),
        password@.len() >= 12 && password.spec_bytes().len() > 72 ==> es_no_procesable(r, "La contraseña no puede superar 72 bytes"@),
        r is Ok <==> (password@.len() >= 12 && password.spec_bytes().len() <= 72),
{
    if password.unicode_len() < MIN_CARACTERES_PASSWORD {
        return Err(no_procesable("La contraseña debe tener al menos 12 caracteres"));
    }
    if password.as_bytes().len() > MAX_BYTES_PASSWORD {
        return Err(no_procesable("La contraseña no puede superar 72 bytes"));
    }
    Ok(())
}

/// El email tal como se guarda: sin espacios alrededor y en minúsculas.
pub open spec fn email_limpio(email: Seq<char>) -> Seq<char> {
    a_minusculas(recortado(email))
}

/// Validación mínima de formato de un email ya limpio: 5 bytes o más,
/// con `@` y sin espacios.
pub open spec fn email_aceptable(limpio: Seq<char>) -> bool {
    &&& encode_utf8(limpio).len() >= 5
    &&& limpio.contains('@')
    &&& !limpio.contains(' ')
}

/// Normaliza el email para que "Ana@Mail.com " y "ana@mail.com" sean la
/// misma cuenta, y rechaza (422 "Email inválido") uno sin forma de email.
pub fn normalizar_email(email: &str) -> (r: Result<String, AppError>)
    ensures
        email_aceptable(email_limpio(email@)) ==> (r matches Ok(s) && s@ == email_limpio(email@)),
        !email_aceptable(email_limpio(email@)) ==> es_no_procesable(r, "Email inválido"@),
{
    let limpio = minusculas(recortar(email));
    let texto = limpio.as_str();
    if texto.as_bytes().len() < 5 || !contiene(texto, '@') || contiene(texto, ' ') {
        return Err(no_procesable("Email inválido"));
    }
    Ok(limpio)
}

/// Datos de un usuario nuevo, listos para el `INSERT`.
pub struct NuevoUsuario {
    pub name: String,
    pub email: String,
    pub password_hash: String,
}

/// Valida y prepara un usuario nuevo: email normalizado, contraseña que
/// cumple las reglas, nombre no vacío (se guarda recortado) y el hash
/// bcrypt de la contraseña. Las validaciones van en ese orden; un fallo
/// de bcrypt es un 500 `bcrypt: ...`.
pub fn preparar_usuario(name: &str, email: &str, password: &str) -> (r: Result<
    NuevoUsuario,
    AppError,
>)
    ensures
        !email_aceptable(email_limpio(email@)) ==> es_no_procesable(r, "Email inválido"@),
        email_aceptable(email_limpio(email@)) && password@.len() < 12 ==> es_no_procesable(
            r,
            "La contraseña debe tener al menos 12 caracteres"@,
        ),
        email_aceptable(email_limpio(email@)) && password@.len() >= 12
            && password.spec_bytes().len() > 72 ==> es_no_procesable(
            r,
            "La contraseña no puede superar 72 bytes"@,
        ),
        email_aceptable(email_limpio(email@)) && password@.len() >= 12
            && password.spec_bytes().len() <= 72 && recortado(name@).len() == 0
            ==> es_no_procesable(r, "El nombre no puede estar vacío"@),
        email_aceptable(email_limpio(email@)) && password@.len() >= 12
            && password.spec_bytes().len() <= 72 && recortado(name@).len() > 0 ==> (
        r is Ok || r matches Err(AppError::Interno(_))),
        r matches Ok(u) ==> {
            &&& email_aceptable(email_limpio(email@))
            &&& password@.len() >= 12
            &&& password.spec_bytes().len() <= 72
            &&& u.email@ == email_limpio(email@)
            &&& u.name@ == recortado(name@)
            &&& u.name@.len() > 0
            &&& bcrypt_verifica(password@, u.password_hash@) == Some(true)
        },
{
    let email = match normalizar_email(email) {
        Ok(e) => e,
        Err(e) => return Err(e),
    };
    match validar_password(password) {
        Ok(()) => {},
        Err(e) => return Err(e),
    }
    let nombre = recortar(name);
    if nombre.unicode_len() == 0 {
        return Err(no_procesable("El nombre no puede estar vacío"));
    }
    match hashear_bcrypt(password) {
        Ok(hash) => Ok(NuevoUsuario { name: String::from_str(nombre), email, password_hash: hash }),
        Err(e) => Err(error_bcrypt(&e)),
    }
}

} // verus!
