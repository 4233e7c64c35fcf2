//! Datos que llegan en el cuerpo o en la query de las peticiones, con las
//! validaciones que se les aplican antes de tocar la base.
use vstd::prelude::*;
use crate::comun::{acotar, paginacion, validar_nombre, ventana_dias};
use crate::contabilidad::{es_tipo_movimiento, validar_tipo};
use crate::errores::{AppError, es_no_procesable};
use crate::metas::{tipo_periodo, validar_periodo};
use crate::roles::validar_rol_workspace;
use crate::texto::{recortado, solo_espacios};
use crate::cuentas::DIAS_AVISO_TARJETA;

verus! {

/// Días por defecto de la ventana de próximos cobros.
pub const DIAS_PROXIMOS_COBROS: i64 = 30;
/// Máximo de días de la ventana de próximos cobros.
pub const MAX_DIAS_PROXIMOS_COBROS: i64 = 365;
/// Máximo de días de la ventana de alertas de tarjeta.
pub const MAX_DIAS_ALERTAS_TARJETA: i64 = 90;

/// Nueva categoría propia de un workspace.
pub struct CrearCategoriaDatos {
    pub name: String,
    pub tipo: String,
}

impl CrearCategoriaDatos {
    /// Valida el tipo ("income" o "expense") y luego el nombre; devuelve
    /// el nombre recortado que se guarda.
    pub fn validar(&self) -> (r: Result<&str, AppError>)
        ensures
            !es_tipo_movimiento(self.tipo@) ==> es_no_procesable(
                r,
                "El tipo debe ser 'income' o 'expense'"@,
            ),
            es_tipo_movimiento(self.tipo@) && solo_espacios(self.name@) ==> es_no_procesable(
                r,
                "El nombre no puede estar vacío"@,
            ),
            r is Ok <==> es_tipo_movimiento(self.tipo@) && !solo_espacios(self.name@),
            r matches Ok(n) ==> n@ == recortado(self.name@),
    {
        match validar_tipo(self.tipo.as_str()) {
            Ok(()) => {},
            Err(e) => {
                return Err(e);
            },
        }
        validar_nombre(self.name.as_str())
    }
}

/// Nueva etiqueta de un workspace.
pub struct CrearEtiquetaDatos {
    pub name: String,
}

impl CrearEtiquetaDatos {
    /// El nombre recortado, que no puede quedar vacío.
    pub fn nombre(&self) -> (r: Result<&str, AppError>)
        ensures
            r is Ok <==> !solo_espacios(self.name@),
            r matches Ok(n) ==> n@ == recortado(self.name@),
            r is Err ==> es_no_procesable(r, "El nombre no puede estar vacío"@),
    {
        validar_nombre(self.name.as_str())
    }
}

/// Nuevo workspace (tenant).
pub struct CrearWorkspaceDatos {
    pub name: String,
}

impl CrearWorkspaceDatos {
    /// El nombre recortado, que no puede quedar vacío.
    pub fn nombre(&self) -> (r: Result<&str, AppError>)
        ensures
            r is Ok <==> !solo_espacios(self.name@),
            r matches Ok(n) ==> n@ == recortado(self.name@),
            r is Err ==> es_no_procesable(r, "El nombre no puede estar vacío"@),
    {
        validar_nombre(self.name.as_str())
    }
}

/// Asignación de un usuario (por email) a un workspace con un rol.
pub struct AsignarMiembroDatos {
    pub email: String,
    pub role: String,
}

impl AsignarMiembroDatos {
    /// El rol debe ser "admin" o "member".
    pub fn validar(&self) -> (r: Result<(), AppError>)
        ensures
            r is Ok <==> (self.role@ == "admin"@ || self.role@ == "member"@),
            r is Err ==> es_no_procesable(r, "El rol debe ser 'admin' o 'member'"@),
    {
        validar_rol_workspace(self.role.as_str())
    }
}

/// Alta de un usuario por parte de un dev.
pub struct CrearUsuarioDatos {
    pub name: String,
    pub email: String,
    /// Contraseña temporal que el dev comunica por un canal seguro.
    pub password: String,
}

/// Paginación de la bitácora de auditoría.
pub struct PaginacionAuditoria {
    /// Cuántas filas devolver (máx. 200).
    pub limite: Option<i64>,
    /// Cuántas filas saltar.
    pub desplazamiento: Option<i64>,
}

impl PaginacionAuditoria {
    /// Filas por página (50 por defecto, entre 1 y 200) y filas a saltar
    /// (0 por defecto, nunca negativo).
    pub fn resolver(&self) -> (r: (i64, i64))
        ensures
            r == paginacion_spec(self.limite, self.desplazamiento),
    {
        paginacion(self.limite, self.desplazamiento)
    }
}

/// Paginación del listado de movimientos.
pub struct PaginacionMovimientos {
    pub limite: Option<i64>,
    pub desplazamiento: Option<i64>,
}

impl PaginacionMovimientos {
    /// Filas por página (50 por defecto, entre 1 y 200) y filas a saltar
    /// (0 por defecto, nunca negativo).
    pub fn resolver(&self) -> (r: (i64, i64))
        ensures
            r == paginacion_spec(self.limite, self.desplazamiento),
    {
        paginacion(self.limite, self.desplazamiento)
    }
}

/// Límite y desplazamiento que resultan de una paginación pedida.
pub open spec fn paginacion_spec(limite: Option<i64>, desplazamiento: Option<i64>) -> (i64, i64) {
    (
        acotar(
            match limite {
                Some(l) => l as int,
                None => 50,
            },
            1,
            200,
        ) as i64,
        match desplazamiento {
            Some(d) => if d < 0 {
                0
            } else {
                d
            },
            None => 0,
        },
    )
}

/// Ventana de días de `dias` (o `por_defecto`), acotada a `[1, maximo]`.
pub open spec fn ventana_spec(dias: Option<i64>, por_defecto: int, maximo: int) -> int {
    acotar(
        match dias {
            Some(d) => d as int,
            None => por_defecto,
        },
        1,
        maximo,
    )
}

/// Ventana de los próximos cobros de suscripciones.
pub struct FiltroProximosCobros {
    /// Días hacia adelante a considerar (por defecto 30).
    pub dias: Option<i64>,
}

impl FiltroProximosCobros {
    /// Días de la ventana: 30 por defecto, entre 1 y 365.
    pub fn ventana(&self) -> (r: i64)
        ensures
            r == ventana_spec(self.dias, DIAS_PROXIMOS_COBROS as int, MAX_DIAS_PROXIMOS_COBROS as int),
    {
        ventana_dias(self.dias, DIAS_PROXIMOS_COBROS, MAX_DIAS_PROXIMOS_COBROS)
    }
}

/// Ventana de las alertas de tarjetas de crédito.
pub struct FiltroAlertasTarjeta {
    pub dias: Option<i64>,
}

impl FiltroAlertasTarjeta {
    /// Días de la ventana: los de aviso de tarjeta por defecto, entre 1 y
    /// 90.
    pub fn ventana(&self) -> (r: i64)
        ensures
            r == ventana_spec(
                self.dias,
                DIAS_AVISO_TARJETA as int,
                MAX_DIAS_ALERTAS_TARJETA as int,
            ),
    {
        ventana_dias(self.dias, DIAS_AVISO_TARJETA, MAX_DIAS_ALERTAS_TARJETA)
    }
}

/// Período de la proyección de una meta.
pub struct FiltroProyeccion {
    /// 'weekly' o 'monthly'. Por defecto 'monthly'.
    pub periodo: Option<String>,
}

impl FiltroProyeccion {
    /// El período pedido (o `monthly`), que debe ser `weekly` o `monthly`.
    pub fn periodo(&self) -> (r: Result<String, AppError>)
        ensures
            ({
                let p = match self.periodo {
                    Some(s) => Some(s@),
                    None => None,
                };
                &&& r is Ok <==> (tipo_periodo(p) == "weekly"@ || tipo_periodo(p) == "monthly"@)
                &&& r matches Ok(x) ==> x@ == tipo_periodo(p)
                &&& r is Err ==> es_no_procesable(r, "El período debe ser 'weekly' o 'monthly'"@)
            }),
    {
        let p: Option<&str> = match &self.periodo {
            Some(s) => Some(s.as_str()),
            None => None,
        };
        validar_periodo(p)
    }
}

/// Email y contraseña del login.
pub struct LoginDatos {
    pub email: String,
    pub password: String,
}

/// Refresh token a canjear (o a revocar en el logout).
pub struct RefreshDatos {
    pub refresh_token: String,
}

/// Canje de una invitación: el token del link y, si el email invitado no
/// tiene cuenta, el nombre y la contraseña de la cuenta nueva.
pub struct AceptarInvitacionDatos {
    pub token: String,
    pub name: String,
    pub password: String,
}

/// Filtro de suscripciones por estado.
pub struct FiltrosSuscripciones {
    pub activas: Option<bool>,
}

/// Filtro de cuentas por estado.
pub struct FiltrosCuentas {
    pub activas: Option<bool>,
}

/// Filtro de inversiones por estado.
pub struct FiltrosInversiones {
    pub activas: Option<bool>,
}

/// Filtro de metas por estado.
pub struct FiltrosMetas {
    pub completadas: Option<bool>,
}

/// Filtro de notificaciones por leídas / no leídas.
pub struct FiltrosNotificaciones {
    pub leidas: Option<bool>,
}

} // verus!
