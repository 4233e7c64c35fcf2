//! Roles y reglas de acceso: el rol global de cada usuario (dev o
//! usuario), su rol dentro de un workspace y a qué datos puede llegar.
use vstd::prelude::*;
use crate::errores::{AppError, es_no_procesable, es_prohibido, es_no_encontrado, es_no_autorizado};
use crate::errores::{no_procesable, prohibido, no_encontrado, no_autorizado};
use crate::texto::mismo_texto;

verus! {

/// Rol global del sistema (columna `users.role`).
#[derive(Debug, Clone, Copy, PartialEq, Eq, Structural)]
pub enum RolGlobal {
    /// Acceso total: ve todos los workspaces, crea tenants, audita.
    Dev,
    /// Solo opera dentro de los workspaces que le fueron asignados.
    Usuario,
}

/// Texto con que se guarda cada rol global.
pub open spec fn texto_de_rol(r: RolGlobal) -> Seq<char> {
    match r {
        RolGlobal::Dev => "dev"@,
        RolGlobal::Usuario => "usuario"@,
    }
}

/// El rol que nombra un texto, si nombra alguno.
pub open spec fn rol_de_texto(s: Seq<char>) -> Option<RolGlobal> {
    if s == "dev"@ {
        Some(RolGlobal::Dev)
    } else if s == "usuario"@ {
        Some(RolGlobal::Usuario)
    } else {
        None
    }
}

impl RolGlobal {
    /// Lee el rol de la columna `users.role`. Un texto desconocido es un
    /// error interno (la base de datos solo admite estos dos).
    pub fn desde_texto(texto: &str) -> (r: Result<RolGlobal, AppError>)
        ensures
            rol_de_texto(texto@) matches Some(x) ==> r == Ok::<RolGlobal, AppError>(x),
            rol_de_texto(texto@) is None ==> (r matches Err(AppError::Interno(d))
                && d@ == "Rol desconocido: "@ + texto@),
    {
        if mismo_texto(texto, "dev") {
            Ok(RolGlobal::Dev)
        } else if mismo_texto(texto, "usuario") {
            Ok(RolGlobal::Usuario)
        } else {
            let detalle = String::from_str("Rol desconocido: ").concat(texto);
            Err(AppError::Interno(detalle))
        }
    }

    /// Texto con que se guarda el rol.
    pub fn como_texto(&self) -> (r: &'static str)
        ensures
            r@ == texto_de_rol(*self),
    {
        match self {
            RolGlobal::Dev => "dev",
            RolGlobal::Usuario => "usuario",
        }
    }
}

/// Leer el texto con que se guarda un rol devuelve ese mismo rol, y solo
/// el texto de un rol se lee como ese rol.
pub proof fn ley_rol_global_ida_y_vuelta(r: RolGlobal, s: Seq<char>)
    ensures
        rol_de_texto(texto_de_rol(r)) == Some(r),
        rol_de_texto(s) == Some(r) ==> s == texto_de_rol(r),
{
    reveal_strlit("dev");
    reveal_strlit("usuario");
    assert("dev"@.len() != "usuario"@.len());
}

/// Usuario que hizo la petición, ya autenticado (su id como entero de
/// 128 bits).
pub struct UsuarioAutenticado {
    pub id: u128,
    pub rol: RolGlobal,
}

impl UsuarioAutenticado {
    /// El usuario tiene rol global dev.
    pub fn es_dev(&self) -> (r: bool)
        ensures
            r == (self.rol == RolGlobal::Dev),
    {
        self.rol == RolGlobal::Dev
    }
}

/// Rol efectivo del usuario dentro de un workspace concreto.
#[derive(Debug, Clone, Copy, PartialEq, Eq, Structural)]
pub enum RolWorkspace {
    /// El rol dev pasa por encima de las membresías: ve todo.
    DevGlobal,
    /// admin del workspace: permisos totales dentro de él.
    Admin,
    /// member: lectura y escritura de datos.
    Member,
}

/// Decide el rol de un usuario en un workspace a partir de su fila en
/// `workspace_members` (`fila`: el texto de la columna `role`, si la
/// fila existe).
///
/// Un dev accede siempre, haya o no fila. Sin fila la respuesta es 404
/// (no 403): un usuario ajeno no distingue entre "no existe" y "no es
/// tuyo".
pub fn rol_en_workspace(usuario: &UsuarioAutenticado, fila: Option<&str>) -> (r: Result<
    RolWorkspace,
    AppError,
>)
    ensures
        usuario.rol == RolGlobal::Dev ==> r == Ok::<RolWorkspace, AppError>(RolWorkspace::DevGlobal),
        usuario.rol != RolGlobal::Dev ==> match fila {
            None => es_no_encontrado(r, "Workspace no encontrado"@),
            Some(t) => if t@ == "admin"@ {
                r == Ok::<RolWorkspace, AppError>(RolWorkspace::Admin)
            } else if t@ == "member"@ {
                r == Ok::<RolWorkspace, AppError>(RolWorkspace::Member)
            } else {
                r matches Err(AppError::Interno(d)) && d@ == "Rol de workspace desconocido: "@ + t@
            },
        },
{
    if usuario.es_dev() {
        return Ok(RolWorkspace::DevGlobal);
    }
    match fila {
        None => Err(no_encontrado("Workspace no encontrado")),
        Some(t) => {
            if mismo_texto(t, "admin") {
                Ok(RolWorkspace::Admin)
            } else if mismo_texto(t, "member") {
                Ok(RolWorkspace::Member)
            } else {
                let detalle = String::from_str("Rol de workspace desconocido: ").concat(t);
                Err(AppError::Interno(detalle))
            }
        },
    }
}

/// Filtro de visibilidad de los listados: un member solo ve lo que él
/// creó (`Some(su id)`); admin y dev ven todo el workspace (`None`).
pub fn solo_propios(rol: RolWorkspace, usuario_id: u128) -> (r: Option<u128>)
    ensures
        r == (if rol == RolWorkspace::Member { Some(usuario_id) } else { None::<u128> }),
{
    match rol {
        RolWorkspace::Member => Some(usuario_id),
        _ => None,
    }
}

/// Las rutas de administración exigen rol dev; cualquier otro recibe 403.
pub fn exigir_dev(usuario: &UsuarioAutenticado) -> (r: Result<(), AppError>)
    ensures
        r is Ok <==> usuario.rol == RolGlobal::Dev,
        r is Err ==> es_prohibido(r, "Esta operación requiere rol dev"@),
{
    if !usuario.es_dev() {
        return Err(prohibido("Esta operación requiere rol dev"));
    }
    Ok(())
}

/// La lista de miembros de un workspace (para el mapa "de quién es esta
/// cuenta") la ven admin y dev; un member recibe 403.
pub fn exigir_supervision(rol: RolWorkspace) -> (r: Result<(), AppError>)
    ensures
        r is Ok <==> rol != RolWorkspace::Member,
        r is Err ==> es_prohibido(r, "Solo un admin puede ver la lista de miembros"@),
{
    if rol == RolWorkspace::Member {
        return Err(prohibido("Solo un admin puede ver la lista de miembros"));
    }
    Ok(())
}

/// A qué `created_by` filtrar una métrica: un usuario normal siempre ve
/// solo lo suyo (se ignora el `user_id` pedido); un dev ve lo que pida
/// (`None` = todo el workspace).
pub fn resolver_filtro_usuario(usuario: &UsuarioAutenticado, user_id: Option<u128>) -> (r: Option<
    u128,
>)
    ensures
        usuario.rol == RolGlobal::Dev ==> r == user_id,
        usuario.rol != RolGlobal::Dev ==> r == Some(usuario.id),
{
    if usuario.es_dev() {
        user_id
    } else {
        Some(usuario.id)
    }
}

/// Valida un rol de workspace (el CHECK de la tabla acepta solo estos).
pub fn validar_rol_workspace(rol: &str) -> (r: Result<(), AppError>)
    ensures
        r is Ok <==> (rol@ == "admin"@ || rol@ == "member"@),
        r is Err ==> es_no_procesable(r, "El rol debe ser 'admin' o 'member'"@),
{
    if mismo_texto(rol, "admin") || mismo_texto(rol, "member") {
        Ok(())
    } else {
        Err(no_procesable("El rol debe ser 'admin' o 'member'"))
    }
}

/// Al quitar un miembro: el propietario del workspace no se puede quitar.
pub fn validar_eliminacion_miembro(owner_id: u128, user_id: u128) -> (r: Result<(), AppError>)
    ensures
        r is Ok <==> owner_id != user_id,
        r is Err ==> es_no_procesable(r, "No se puede eliminar al propietario del workspace"@),
{
    if owner_id == user_id {
        return Err(no_procesable("No se puede eliminar al propietario del workspace"));
    }
    Ok(())
}

/// Tras el `DELETE` de la membresía: si no borró ninguna fila, el
/// usuario no era miembro (404).
pub fn comprobar_miembro_eliminado(filas_afectadas: u64) -> (r: Result<(), AppError>)
    ensures
        r is Ok <==> filas_afectadas != 0,
        r is Err ==> es_no_encontrado(r, "Miembro no encontrado"@),
{
    if filas_afectadas == 0 {
        return Err(no_encontrado("Miembro no encontrado"));
    }
    Ok(())
}

/// Un dev no puede desactivar su propia cuenta.
pub fn validar_desactivacion(id: u128, dev_id: u128) -> (r: Result<(), AppError>)
    ensures
        r is Ok <==> id != dev_id,
        r is Err ==> es_no_procesable(r, "No puedes desactivar tu propia cuenta"@),
{
    if id == dev_id {
        return Err(no_procesable("No puedes desactivar tu propia cuenta"));
    }
    Ok(())
}

/// Extrae el token del header `Authorization: Bearer <token>`.
/// Sin header (o con un valor que no es texto) responde 401 "Falta el
/// header Authorization"; sin el prefijo `Bearer `, 401 con el formato
/// esperado.
pub fn token_bearer(header: Option<&str>) -> (r: Result<&str, AppError>)
    ensures
        header is None ==> es_no_autorizado(r, "Falta el header Authorization"@),
        header matches Some(h) ==> ({
            let p = "Bearer "@;
            if h@.len() >= p.len() && h@.subrange(0, p.len() as int) == p {
                r matches Ok(t) && t@ == h@.subrange(p.len() as int, h@.len() as int)
            } else {
                es_no_autorizado(r, "Formato esperado: Authorization: Bearer <token>"@)
            }
        }),
{
    match header {
        None => Err(no_autorizado("Falta el header Authorization")),
        Some(h) => {
            let prefijo = "Bearer ";
            proof {
                reveal_strlit("Bearer ");
            }
            let n: usize = h.unicode_len();
            let m: usize = prefijo.unicode_len();
            if n < m {
                return Err(no_autorizado("Formato esperado: Authorization: Bearer <token>"));
            }
            let inicio = h.substring_char(0, m);
            if mismo_texto(inicio, prefijo) {
                Ok(h.substring_char(m, n))
            } else {
                Err(no_autorizado("Formato esperado: Authorization: Bearer <token>"))
            }
        },
    }
}

} // verus!
