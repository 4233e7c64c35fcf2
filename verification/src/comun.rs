//! Reglas que comparten varios módulos: nombres obligatorios, paginación,
//! ventanas de días y operaciones reservadas al dueño de un recurso.
use crate::errores::{es_no_procesable, es_prohibido, no_procesable, prohibido, AppError};
use crate::texto::{lema_recortado_vacio, recortado, recortar, solo_espacios};
use vstd::prelude::*;

verus! {

/// `valor` acotado al intervalo `[minimo, maximo]` (`Ord::clamp`).
pub open spec fn acotar(valor: int, minimo: int, maximo: int) -> int {
    if valor < minimo {
        minimo
    } else if valor > maximo {
        maximo
    } else {
        valor
    }
}

/// Un nombre no puede quedar vacío tras quitar los espacios; devuelve el
/// nombre recortado, que es el que se guarda.
pub fn validar_nombre(name: &str) -> (r: Result<&str, AppError>)
    ensures
        r is Ok <==> !solo_espacios(name@),
        r matches Ok(n) ==> n@ == recortado(name@) && n@.len() > 0,
        r is Err ==> es_no_procesable(r, "El nombre no puede estar vacío"@),
{
    let recortado = recortar(name);
    proof {
        lema_recortado_vacio(name@);
    }
    if recortado.unicode_len() == 0 {
        Err(no_procesable("El nombre no puede estar vacío"))
    } else {
        Ok(recortado)
    }
}

/// Filas por página (50 por defecto, entre 1 y 200) y filas a saltar
/// (0 por defecto, nunca negativo).
pub fn paginacion(limite: Option<i64>, desplazamiento: Option<i64>) -> (r: (i64, i64))
    ensures
        r.0 == acotar(
            match limite {
                Some(l) => l as int,
                None => 50,
            },
            1,
            200,
        ),
        r.1 == match desplazamiento {
            Some(d) => if d < 0 {
                0
            } else {
                d as int
            },
            None => 0,
        },
        1 <= r.0 <= 200,
        r.1 >= 0,
{
    let l: i64 = match limite {
        Some(l) => l,
        None => 50,
    };
    let l: i64 = if l < 1 {
        1
    } else if l > 200 {
        200
    } else {
        l
    };
    let d: i64 = match desplazamiento {
        Some(d) => d,
        None => 0,
    };
    let d: i64 = if d < 0 {
        0
    } else {
        d
    };
    (l, d)
}

/// Días hacia adelante a considerar: `por_defecto` si no se indica,
/// acotado a `[1, maximo]`.
pub fn ventana_dias(dias: Option<i64>, por_defecto: i64, maximo: i64) -> (r: i64)
    requires
        1 <= maximo,
    ensures
        r == acotar(
            match dias {
                Some(d) => d as int,
                None => por_defecto as int,
            },
            1,
            maximo as int,
        ),
        1 <= r <= maximo,
{
    let d: i64 = match dias {
        Some(d) => d,
        None => por_defecto,
    };
    if d < 1 {
        1
    } else if d > maximo {
        maximo
    } else {
        d
    }
}

/// Solo el dueño (`owner_id`) puede operar el recurso; cualquier otro
/// usuario recibe 403 con `mensaje`, sin excepción de rol.
pub fn exigir_dueno(owner_id: u128, usuario_id: u128, mensaje: &str) -> (r: Result<(), AppError>)
    ensures
        r is Ok <==> owner_id == usuario_id,
        r is Err ==> es_prohibido(r, mensaje@),
{
    if owner_id != usuario_id {
        Err(prohibido(mensaje))
    } else {
        Ok(())
    }
}

} // verus!
