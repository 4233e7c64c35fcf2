//! Decisiones de la sesión: el login (con su bloqueo contra fuerza
//! bruta), la rotación de refresh tokens, el logout, el canje de
//! invitaciones y los datos que viajan en el access token.
//!
//! Principio: las respuestas de error nunca revelan información.
//! "Credenciales inválidas" se responde igual si el email no existe, si
//! la contraseña está mal o si la cuenta está desactivada.
//!
//! Los instantes se miden en microsegundos desde la época Unix.
use vstd::prelude::*;
use vstd::utf8::encode_utf8;
use crate::errores::{AppError, es_no_autorizado, es_no_procesable, no_autorizado, codigo_http_spec, mensaje_cliente_spec};
use crate::roles::{RolGlobal, UsuarioAutenticado, rol_de_texto};
use crate::usuarios::{
    bcrypt_verifica, verificar_bcrypt, hashear_bcrypt, error_bcrypt, normalizar_email,
    email_aceptable, email_limpio,
};
use crate::tokens::{
    generar_token_opaco, hash_token, hex_texto, sha256_de, vencimiento_invitacion,
    DURACION_INVITACION_HORAS, MICROS_POR_HORA,
};

verus! {

/// Intentos fallidos consecutivos antes de bloquear la cuenta.
pub const MAX_INTENTOS_FALLIDOS: i32 = 5;
/// Minutos que dura el bloqueo por fuerza bruta.
pub const MINUTOS_DE_BLOQUEO: i64 = 15;
/// Microsegundos en un minuto.
pub const MICROS_POR_MINUTO: i64 = 60_000_000;
/// Minutos de vida del access token.
pub const DURACION_ACCESS_MIN: i64 = 15;

/// El error genérico de login: idéntico en todos los caminos de fallo.
pub fn credenciales_invalidas() -> (r: AppError)
    ensures
        r matches AppError::NoAutorizado(m) && m@ == "Credenciales inválidas"@,
{
    no_autorizado("Credenciales inválidas")
}

/// Lo que el login necesita de la fila del usuario.
pub struct CuentaLogin {
    pub id: u128,
    pub password_hash: String,
    pub is_active: bool,
    /// Logins fallidos consecutivos (se reinicia al entrar bien).
    pub failed_login_attempts: i32,
    /// Si es un instante futuro, la cuenta está bloqueada hasta entonces.
    pub locked_until: Option<i64>,
}

/// Resultado del intento de login.
#[derive(Debug, Clone, Copy, PartialEq, Eq, Structural)]
pub enum DecisionLogin {
    /// No hay cuenta con ese email.
    EmailDesconocido,
    /// La cuenta está bloqueada por intentos fallidos (429).
    Bloqueada,
    /// La cuenta está desactivada.
    Inactiva,
    /// Contraseña incorrecta: `intentos` es el nuevo contador de fallos y
    /// `bloquear_hasta`, si lo hay, el fin del bloqueo que empieza ahora
    /// (si no, el bloqueo anterior queda como estaba).
    PasswordIncorrecta { intentos: i32, bloquear_hasta: Option<i64> },
    /// Login correcto: se reinicia el contador y se emiten los tokens.
    Correcta,
}

/// La decisión que se toma antes de mirar la contraseña, si la hay: sin
/// cuenta, cuenta bloqueada (bloqueo futuro) o cuenta inactiva, en ese
/// orden.
pub open spec fn decision_previa(cuenta: Option<&CuentaLogin>, ahora: i64) -> Option<DecisionLogin> {
    match cuenta {
        None => Some(DecisionLogin::EmailDesconocido),
        Some(c) => {
            if c.locked_until matches Some(t) && t > ahora {
                Some(DecisionLogin::Bloqueada)
            } else if !c.is_active {
                Some(DecisionLogin::Inactiva)
            } else {
                None
            }
        },
    }
}

/// La decisión una vez comprobada la contraseña: si es incorrecta suma un
/// fallo y, al llegar a 5, bloquea 15 minutos desde `ahora`.
pub open spec fn decision_tras_password(cuenta: &CuentaLogin, correcta: bool, ahora: i64) -> DecisionLogin {
    if correcta {
        DecisionLogin::Correcta
    } else {
        let intentos = cuenta.failed_login_attempts + 1;
        DecisionLogin::PasswordIncorrecta {
            intentos: intentos as i32,
            bloquear_hasta: if intentos >= MAX_INTENTOS_FALLIDOS {
                Some((ahora + MINUTOS_DE_BLOQUEO * MICROS_POR_MINUTO) as i64)
            } else {
                None
            },
        }
    }
}

/// Lo que cada decisión responde al cliente, como (código HTTP, mensaje):
/// una cuenta bloqueada da 429; cualquier otro fallo, el mismo 401
/// "Credenciales inválidas"; el login correcto, nada.
pub open spec fn respuesta_login_spec(d: DecisionLogin) -> Option<(u16, Seq<char>)> {
    match d {
        DecisionLogin::Correcta => None,
        DecisionLogin::Bloqueada => Some((429u16, "Demasiados intentos, espera unos minutos"@)),
        _ => Some((401u16, "Credenciales inválidas"@)),
    }
}

impl DecisionLogin {
    /// Respuesta al cliente: `Ok` solo para el login correcto; 429 para la
    /// cuenta bloqueada; "Credenciales inválidas" para todo lo demás.
    pub fn respuesta(&self) -> (r: Result<(), AppError>)
        ensures
            (*self == DecisionLogin::Correcta) <==> r is Ok,
            *self == DecisionLogin::Bloqueada ==> r matches Err(AppError::DemasiadosIntentos),
            *self != DecisionLogin::Correcta && *self != DecisionLogin::Bloqueada ==> es_no_autorizado(
                r,
                "Credenciales inválidas"@,
            ),
            match r {
                Ok(_) => respuesta_login_spec(*self) is None,
                Err(e) => respuesta_login_spec(*self) == Some((codigo_http_spec(e), mensaje_cliente_spec(e))),
            },
    {
        match self {
            DecisionLogin::Correcta => Ok(()),
            DecisionLogin::Bloqueada => Err(AppError::DemasiadosIntentos),
            _ => Err(credenciales_invalidas()),
        }
    }
}

/// Primera mitad del login, sin contraseña: `Some(decisión)` si la cuenta
/// no existe, está bloqueada o está inactiva; `None` si hay que comprobar
/// la contraseña.
pub fn evaluar_cuenta(cuenta: Option<&CuentaLogin>, ahora: i64) -> (r: Option<DecisionLogin>)
    ensures
        r == decision_previa(cuenta, ahora),
{
    match cuenta {
        None => Some(DecisionLogin::EmailDesconocido),
        Some(c) => {
            let bloqueada = match c.locked_until {
                Some(t) => t > ahora,
                None => false,
            };
            if bloqueada {
                Some(DecisionLogin::Bloqueada)
            } else if !c.is_active {
                Some(DecisionLogin::Inactiva)
            } else {
                None
            }
        },
    }
}

/// Segunda mitad del login: la decisión según si la contraseña coincide.
pub fn tras_verificar_password(cuenta: &CuentaLogin, correcta: bool, ahora: i64) -> (r: DecisionLogin)
    requires
        cuenta.failed_login_attempts < i32::MAX,
        ahora <= i64::MAX - MINUTOS_DE_BLOQUEO * MICROS_POR_MINUTO,
    ensures
        r == decision_tras_password(cuenta, correcta, ahora),
{
    if correcta {
        return DecisionLogin::Correcta;
    }
    let intentos: i32 = cuenta.failed_login_attempts + 1;
    let bloquear_hasta = if intentos >= MAX_INTENTOS_FALLIDOS {
        Some(ahora + MINUTOS_DE_BLOQUEO * MICROS_POR_MINUTO)
    } else {
        None
    };
    DecisionLogin::PasswordIncorrecta { intentos, bloquear_hasta }
}

/// El login completo sobre la cuenta encontrada (o no) por email: decide
/// sin contraseña si puede y, si no, la verifica con bcrypt.
///
/// Con el email desconocido también calcula un hash bcrypt (y lo
/// descarta) para que esa respuesta tarde lo mismo que una contraseña
/// incorrecta. Un hash guardado ilegible es un 500 `bcrypt: ...`.
pub fn decidir_login(cuenta: Option<&CuentaLogin>, password: &str, ahora: i64) -> (r: Result<
    DecisionLogin,
    AppError,
>)
    requires
        cuenta matches Some(c) ==> c.failed_login_attempts < i32::MAX,
        ahora <= i64::MAX - MINUTOS_DE_BLOQUEO * MICROS_POR_MINUTO,
    ensures
        decision_previa(cuenta, ahora) matches Some(d) ==> r == Ok::<DecisionLogin, AppError>(d),
        decision_previa(cuenta, ahora) is None ==> (cuenta matches Some(c) && match bcrypt_verifica(
            password@,
            c.password_hash@,
        ) {
            Some(b) => r == Ok::<DecisionLogin, AppError>(decision_tras_password(c, b, ahora)),
            None => r matches Err(AppError::Interno(_)),
        }),
{
    match evaluar_cuenta(cuenta, ahora) {
        Some(d) => {
            if d == DecisionLogin::EmailDesconocido {
                let _ = hashear_bcrypt(password);
            }
            Ok(d)
        },
        None => {
            let c = match cuenta {
                Some(c) => c,
                None => {
                    return Ok(DecisionLogin::EmailDesconocido);
                },
            };
            match verificar_bcrypt(password, c.password_hash.as_str()) {
                Ok(b) => Ok(tras_verificar_password(c, b, ahora)),
                Err(e) => Err(error_bcrypt(&e)),
            }
        },
    }
}

/// La cuenta `c` tal como queda guardada tras la decisión `d`: un login
/// correcto reinicia el contador y quita el bloqueo; una contraseña
/// incorrecta guarda el nuevo contador y, si lo hay, el nuevo bloqueo (si
/// no, el anterior queda como estaba); las demás decisiones no la tocan.
pub open spec fn cuenta_tras_login(c: &CuentaLogin, d: DecisionLogin) -> CuentaLogin {
    match d {
        DecisionLogin::Correcta => CuentaLogin {
            id: c.id,
            password_hash: c.password_hash,
            is_active: c.is_active,
            failed_login_attempts: 0,
            locked_until: None,
        },
        DecisionLogin::PasswordIncorrecta { intentos, bloquear_hasta } => CuentaLogin {
            id: c.id,
            password_hash: c.password_hash,
            is_active: c.is_active,
            failed_login_attempts: intentos,
            locked_until: match bloquear_hasta {
                Some(t) => Some(t),
                None => c.locked_until,
            },
        },
        _ => *c,
    }
}

/// Lo que hay que guardar en la cuenta tras la decisión `d`, como (nuevo
/// contador de fallos, nuevo bloqueo); `None` si la cuenta no cambia.
pub fn estado_tras_login(c: &CuentaLogin, d: DecisionLogin) -> (r: Option<(i32, Option<i64>)>)
    ensures
        r is Some <==> (d is Correcta || d is PasswordIncorrecta),
        r matches Some((k, l)) ==> k == cuenta_tras_login(c, d).failed_login_attempts && l
            == cuenta_tras_login(c, d).locked_until,
{
    match d {
        DecisionLogin::Correcta => Some((0, None)),
        DecisionLogin::PasswordIncorrecta { intentos, bloquear_hasta } => {
            let l = match bloquear_hasta {
                Some(t) => Some(t),
                None => c.locked_until,
            };
            Some((intentos, l))
        },
        _ => None,
    }
}

/// Un login sobre una cuenta activa y sin bloqueo vigente: con la
/// contraseña correcta entra (sin error) y la cuenta queda con el contador
/// en cero y sin bloqueo; con una incorrecta responde 401 "Credenciales
/// inválidas", el contador sube en uno y, si llega a 5 o más, la cuenta
/// queda bloqueada 15 minutos desde ahora, durante los cuales todo login
/// responde 429 sin mirar la contraseña; por debajo de 5, el bloqueo
/// guardado no cambia.
pub proof fn ley_login(c: &CuentaLogin, correcta: bool, ahora: i64, despues: i64)
    requires
        decision_previa(Some(c), ahora) is None,
        0 <= c.failed_login_attempts < i32::MAX,
        ahora <= i64::MAX - MINUTOS_DE_BLOQUEO * MICROS_POR_MINUTO,
    ensures
        ({
            let d = decision_tras_password(c, correcta, ahora);
            let c2 = cuenta_tras_login(c, d);
            &&& correcta ==> respuesta_login_spec(d) is None && c2.failed_login_attempts == 0
                && c2.locked_until is None
            &&& !correcta ==> respuesta_login_spec(d) == Some((401u16, "Credenciales inválidas"@))
                && c2.failed_login_attempts == c.failed_login_attempts + 1
            &&& (!correcta && c.failed_login_attempts + 1 >= MAX_INTENTOS_FALLIDOS) ==> (c2.locked_until
                == Some((ahora + MINUTOS_DE_BLOQUEO * MICROS_POR_MINUTO) as i64) && (ahora <= despues
                < ahora + MINUTOS_DE_BLOQUEO * MICROS_POR_MINUTO ==> decision_previa(Some(&c2), despues)
                == Some(DecisionLogin::Bloqueada) && respuesta_login_spec(DecisionLogin::Bloqueada)
                == Some((429u16, "Demasiados intentos, espera unos minutos"@))))
            &&& (!correcta && c.failed_login_attempts + 1 < MAX_INTENTOS_FALLIDOS) ==> c2.locked_until
                == c.locked_until
        }),
{
}

/// El quinto fallo consecutivo bloquea la cuenta 15 minutos: tras él,
/// cualquier intento antes de que pasen los 15 minutos responde 429, sin
/// llegar a mirar la contraseña.
pub proof fn ley_bloqueo_por_fuerza_bruta(c: &CuentaLogin, ahora: i64, despues: i64)
    requires
        c.failed_login_attempts == MAX_INTENTOS_FALLIDOS - 1,
        ahora <= i64::MAX - MINUTOS_DE_BLOQUEO * MICROS_POR_MINUTO,
        ahora <= despues < ahora + MINUTOS_DE_BLOQUEO * MICROS_POR_MINUTO,
    ensures
        ({
            let d = decision_tras_password(c, false, ahora);
            &&& d is PasswordIncorrecta
            &&& d->intentos == MAX_INTENTOS_FALLIDOS
            &&& d->bloquear_hasta == Some((ahora + MINUTOS_DE_BLOQUEO * MICROS_POR_MINUTO) as i64)
            &&& decision_previa(Some(&cuenta_tras_login(c, d)), despues) == Some(DecisionLogin::Bloqueada)
        }),
{
}

/// Antes del quinto fallo no hay bloqueo nuevo: el contador sube en uno y
/// el bloqueo guardado queda como estaba.
pub proof fn ley_fallo_sin_bloqueo(c: &CuentaLogin, ahora: i64)
    requires
        0 <= c.failed_login_attempts < MAX_INTENTOS_FALLIDOS - 1,
    ensures
        decision_tras_password(c, false, ahora) == (DecisionLogin::PasswordIncorrecta {
            intentos: (c.failed_login_attempts + 1) as i32,
            bloquear_hasta: None,
        }),
{
}

/// Los tres fallos que no son un bloqueo (email desconocido, cuenta
/// inactiva, contraseña incorrecta) responden exactamente lo mismo.
pub proof fn ley_fallos_indistinguibles(intentos: i32, bloquear_hasta: Option<i64>)
    ensures
        respuesta_login_spec(DecisionLogin::EmailDesconocido) == respuesta_login_spec(
            DecisionLogin::Inactiva,
        ),
        respuesta_login_spec(DecisionLogin::Inactiva) == respuesta_login_spec(
            DecisionLogin::PasswordIncorrecta { intentos, bloquear_hasta },
        ),
{
}

/// El mensaje de cualquier sesión rechazada en `/auth/refresh`.
pub fn sesion_invalida() -> (r: AppError)
    ensures
        r matches AppError::NoAutorizado(m) && m@ == "Sesión inválida"@,
{
    no_autorizado("Sesión inválida")
}

/// Fila de `refresh_tokens` que se usa para validar y rotar.
#[derive(Clone, Copy)]
pub struct RefreshGuardado {
    pub id: u128,
    pub user_id: u128,
    pub expires_at: i64,
}

/// Qué hacer con el refresh token recibido.
#[derive(Debug, Clone, Copy, PartialEq, Eq, Structural)]
pub enum DecisionRefresh {
    /// No existe: 401 "Sesión inválida".
    Desconocido,
    /// Existe pero ya se usó o venció: posible robo. Se cierran todas las
    /// sesiones del usuario y se responde 401 "Sesión inválida".
    Reuso { user_id: u128 },
    /// Vigente: falta comprobar que la cuenta siga activa; luego se revoca
    /// este token y se emite un par nuevo.
    Vigente { id: u128, user_id: u128 },
}

/// La decisión sobre un refresh token guardado (o no) en `ahora`.
pub open spec fn decision_refresh(guardado: Option<RefreshGuardado>, ahora: i64) -> DecisionRefresh {
    match guardado {
        None => DecisionRefresh::Desconocido,
        Some(g) => if g.expires_at <= ahora {
            DecisionRefresh::Reuso { user_id: g.user_id }
        } else {
            DecisionRefresh::Vigente { id: g.id, user_id: g.user_id }
        },
    }
}

/// Clasifica el refresh token recibido. Uno vencido (o revocado, que es
/// lo mismo: la revocación pone su vencimiento en el pasado) es un reuso.
pub fn evaluar_refresh(guardado: Option<RefreshGuardado>, ahora: i64) -> (r: DecisionRefresh)
    ensures
        r == decision_refresh(guardado, ahora),
        guardado is None ==> r == DecisionRefresh::Desconocido,
        guardado matches Some(g) ==> r == (if g.expires_at <= ahora {
            DecisionRefresh::Reuso { user_id: g.user_id }
        } else {
            DecisionRefresh::Vigente { id: g.id, user_id: g.user_id }
        }),
{
    match guardado {
        None => DecisionRefresh::Desconocido,
        Some(g) => {
            if g.expires_at <= ahora {
                DecisionRefresh::Reuso { user_id: g.user_id }
            } else {
                DecisionRefresh::Vigente { id: g.id, user_id: g.user_id }
            }
        },
    }
}

/// Un refresh token revocado en `ahora`: la revocación (al rotarlo o al
/// cerrar todas las sesiones del usuario) lo hace vencer en ese instante,
/// salvo que ya hubiera vencido.
pub open spec fn revocado(g: RefreshGuardado, ahora: i64) -> RefreshGuardado {
    if g.expires_at > ahora {
        RefreshGuardado { id: g.id, user_id: g.user_id, expires_at: ahora }
    } else {
        g
    }
}

/// Un refresh token sirve una sola vez: si en `t1` estaba vigente (y se
/// rotó, revocándolo), volver a presentarlo en cualquier `t2 >= t1` es un
/// reuso de su usuario; y tras cerrar en `t2` todas las sesiones de ese
/// usuario, cualquiera de sus tokens (también el emitido en la rotación)
/// es un reuso en todo `t3 >= t2`, hasta un nuevo login.
pub proof fn ley_refresh_un_solo_uso(
    g: RefreshGuardado,
    t1: i64,
    t2: i64,
    t3: i64,
    tokens: Seq<RefreshGuardado>,
)
    requires
        decision_refresh(Some(g), t1) is Vigente,
        t1 <= t2 <= t3,
    ensures
        decision_refresh(Some(revocado(g, t1)), t2) == (DecisionRefresh::Reuso { user_id: g.user_id }),
        forall|i: int|
            0 <= i < tokens.len() && tokens[i].user_id == g.user_id ==> decision_refresh(
                Some(revocado(#[trigger] tokens[i], t2)),
                t3,
            ) == (DecisionRefresh::Reuso { user_id: g.user_id }),
{
}

/// Tras releer la cuenta en un refresh vigente: una cuenta desactivada
/// pierde todas sus sesiones (401 "Sesión inválida").
pub fn cuenta_para_refresh(activa: bool) -> (r: Result<(), AppError>)
    ensures
        r is Ok <==> activa,
        !activa ==> es_no_autorizado(r, "Sesión inválida"@),
{
    if !activa {
        return Err(sesion_invalida());
    }
    Ok(())
}

/// Un refresh token revocado en el logout solo si es del propio usuario.
pub fn revoca_en_logout(dueno_del_token: Option<u128>, usuario_id: u128) -> (r: bool)
    ensures
        r <==> dueno_del_token == Some(usuario_id),
{
    match dueno_del_token {
        Some(d) => d == usuario_id,
        None => false,
    }
}

/// Par de tokens que recibe el cliente al iniciar sesión o refrescar.
pub struct TokensRespuesta {
    pub access_token: String,
    pub refresh_token: String,
    pub token_type: &'static str,
    /// Segundos de vida del access token.
    pub expires_in: i64,
}

impl TokensRespuesta {
    /// La respuesta estándar: tipo `Bearer` y 15 minutos (900 s) de vida.
    pub fn nueva(access_token: String, refresh_token: String) -> (r: TokensRespuesta)
        ensures
            r.access_token == access_token,
            r.refresh_token == refresh_token,
            r.token_type@ == "Bearer"@,
            r.expires_in == DURACION_ACCESS_MIN * 60,
    {
        TokensRespuesta { access_token, refresh_token, token_type: "Bearer", expires_in: DURACION_ACCESS_MIN * 60 }
    }
}

/// Contenido (claims) que viaja firmado dentro del access token. Los
/// instantes van en segundos Unix.
pub struct Claims {
    /// Id del usuario dueño del token.
    pub sub: u128,
    /// Rol global: "dev" o "usuario".
    pub rol: String,
    /// Expiración.
    pub exp: i64,
    /// Emisión.
    pub iat: i64,
}

impl Claims {
    /// Claims de un access token emitido en `ahora` (segundos): vence a
    /// los 15 minutos.
    pub fn nuevas(sub: u128, rol: &str, ahora: i64) -> (r: Claims)
        requires
            ahora <= i64::MAX - DURACION_ACCESS_MIN * 60,
        ensures
            r.sub == sub,
            r.rol@ == rol@,
            r.iat == ahora,
            r.exp == ahora + DURACION_ACCESS_MIN * 60,
    {
        Claims { sub, rol: String::from_str(rol), exp: ahora + DURACION_ACCESS_MIN * 60, iat: ahora }
    }
}

/// El usuario de la petición a partir de los claims ya validados (firma y
/// expiración): su id y su rol leído del texto.
pub fn usuario_desde_claims(claims: &Claims) -> (r: Result<UsuarioAutenticado, AppError>)
    ensures
        rol_de_texto(claims.rol@) matches Some(x) ==> (r matches Ok(u) && u.id == claims.sub
            && u.rol == x),
        rol_de_texto(claims.rol@) is None ==> r matches Err(AppError::Interno(_)),
{
    match RolGlobal::desde_texto(claims.rol.as_str()) {
        Ok(rol) => Ok(UsuarioAutenticado { id: claims.sub, rol }),
        Err(e) => Err(e),
    }
}

/// Un access token con firma inválida, expirado o malformado.
pub fn token_invalido() -> (r: AppError)
    ensures
        r matches AppError::NoAutorizado(m) && m@ == "Token inválido o expirado"@,
{
    no_autorizado("Token inválido o expirado")
}

/// Fila de `workspace_invitations` buscada por el hash del token.
pub struct InvitacionGuardada {
    pub id: u128,
    pub workspace_id: u128,
    pub invited_email: String,
    pub role: String,
    pub expires_at: i64,
    pub used_at: Option<i64>,
}

/// Una invitación sirve si existe, no se usó y no venció; inválida, usada
/// o vencida responden el mismo 401.
pub fn validar_invitacion(invitacion: Option<InvitacionGuardada>, ahora: i64) -> (r: Result<
    InvitacionGuardada,
    AppError,
>)
    ensures
        (invitacion matches Some(i) && i.used_at is None && i.expires_at > ahora) ==> r
            == Ok::<InvitacionGuardada, AppError>(invitacion->0),
        !(invitacion matches Some(i) && i.used_at is None && i.expires_at > ahora) ==> es_no_autorizado(
            r,
            "Invitación inválida o expirada"@,
        ),
{
    match invitacion {
        Some(i) => {
            if i.used_at.is_none() && i.expires_at > ahora {
                Ok(i)
            } else {
                Err(no_autorizado("Invitación inválida o expirada"))
            }
        },
        None => Err(no_autorizado("Invitación inválida o expirada")),
    }
}


/// Una invitación lista para guardar: el email invitado (normalizado), el
/// token plano (que se entrega una sola vez), su hash (lo único que se
/// guarda) y el instante en que vence.
pub struct InvitacionNueva {
    pub email: String,
    pub token: String,
    pub token_hash: String,
    pub expira: i64,
}

/// Prepara una invitación de un solo uso que vence en 72 horas. El email
/// inválido es 422 "Email inválido".
pub fn preparar_invitacion(email: &str, ahora: i64) -> (r: Result<InvitacionNueva, AppError>)
    requires
        ahora <= i64::MAX - DURACION_INVITACION_HORAS * MICROS_POR_HORA,
    ensures
        !email_aceptable(email_limpio(email@)) ==> es_no_procesable(r, "Email inválido"@),
        email_aceptable(email_limpio(email@)) ==> (r matches Ok(i) && i.email@ == email_limpio(
            email@,
        ) && i.token@.len() == 64 && i.token_hash@ == hex_texto(sha256_de(encode_utf8(i.token@)))
            && i.expira == ahora + DURACION_INVITACION_HORAS * MICROS_POR_HORA),
{
    let email = normalizar_email(email)?;
    let token = generar_token_opaco();
    let token_hash = hash_token(token.as_str());
    Ok(InvitacionNueva { email, token, token_hash, expira: vencimiento_invitacion(ahora) })
}

} // verus!
