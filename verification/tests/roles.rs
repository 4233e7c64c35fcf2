use backend::errores::AppError;
use backend::roles::{
    comprobar_miembro_eliminado, exigir_dev, exigir_supervision, resolver_filtro_usuario,
    rol_en_workspace, solo_propios, token_bearer, validar_desactivacion,
    validar_eliminacion_miembro, validar_rol_workspace, RolGlobal, RolWorkspace,
    UsuarioAutenticado,
};

fn respuesta<T>(r: Result<T, AppError>) -> (u16, String) {
    match r {
        Ok(_) => (200, String::new()),
        Err(e) => (e.codigo_http(), e.mensaje_para_cliente()),
    }
}

fn dev() -> UsuarioAutenticado {
    UsuarioAutenticado { id: 1, rol: RolGlobal::Dev }
}

fn usuario(id: u128) -> UsuarioAutenticado {
    UsuarioAutenticado { id, rol: RolGlobal::Usuario }
}

#[test]
fn rol_global_desde_texto() {
    assert_eq!(RolGlobal::desde_texto("dev").unwrap(), RolGlobal::Dev);
    assert_eq!(RolGlobal::desde_texto("usuario").unwrap(), RolGlobal::Usuario);
    match RolGlobal::desde_texto("admin") {
        Err(e) => {
            assert_eq!(e.codigo_http(), 500);
            assert_eq!(e.detalle_interno().unwrap(), "Rol desconocido: admin");
            assert_eq!(e.mensaje_para_cliente(), "Error interno del servidor");
        }
        Ok(_) => panic!("un rol desconocido no se acepta"),
    }
}

#[test]
fn rol_global_ida_y_vuelta() {
    for rol in [RolGlobal::Dev, RolGlobal::Usuario] {
        assert_eq!(RolGlobal::desde_texto(rol.como_texto()).unwrap(), rol);
    }
    assert_eq!(RolGlobal::Dev.como_texto(), "dev");
    assert_eq!(RolGlobal::Usuario.como_texto(), "usuario");
}

#[test]
fn dev_accede_a_cualquier_workspace() {
    assert_eq!(rol_en_workspace(&dev(), None).unwrap(), RolWorkspace::DevGlobal);
    assert_eq!(rol_en_workspace(&dev(), Some("member")).unwrap(), RolWorkspace::DevGlobal);
}

#[test]
fn rol_de_miembro_segun_su_fila() {
    assert_eq!(rol_en_workspace(&usuario(7), Some("admin")).unwrap(), RolWorkspace::Admin);
    assert_eq!(rol_en_workspace(&usuario(7), Some("member")).unwrap(), RolWorkspace::Member);
    assert_eq!(
        respuesta(rol_en_workspace(&usuario(7), None)),
        (404, "Workspace no encontrado".to_string())
    );
    match rol_en_workspace(&usuario(7), Some("owner")) {
        Err(e) => assert_eq!(
            e.detalle_interno().unwrap(),
            "Rol de workspace desconocido: owner"
        ),
        Ok(_) => panic!("rol desconocido"),
    }
}

#[test]
fn member_solo_ve_lo_propio() {
    assert_eq!(solo_propios(RolWorkspace::Member, 9), Some(9));
    assert_eq!(solo_propios(RolWorkspace::Admin, 9), None);
    assert_eq!(solo_propios(RolWorkspace::DevGlobal, 9), None);
}

#[test]
fn rutas_de_administracion_exigen_dev() {
    assert!(exigir_dev(&dev()).is_ok());
    assert_eq!(
        respuesta(exigir_dev(&usuario(3))),
        (403, "Esta operación requiere rol dev".to_string())
    );
}

#[test]
fn lista_de_miembros_solo_para_admin() {
    assert!(exigir_supervision(RolWorkspace::Admin).is_ok());
    assert!(exigir_supervision(RolWorkspace::DevGlobal).is_ok());
    assert_eq!(
        respuesta(exigir_supervision(RolWorkspace::Member)),
        (403, "Solo un admin puede ver la lista de miembros".to_string())
    );
}

#[test]
fn usuario_normal_siempre_ve_sus_metricas() {
    assert_eq!(resolver_filtro_usuario(&usuario(5), Some(99)), Some(5));
    assert_eq!(resolver_filtro_usuario(&usuario(5), None), Some(5));
    assert_eq!(resolver_filtro_usuario(&dev(), Some(99)), Some(99));
    assert_eq!(resolver_filtro_usuario(&dev(), None), None);
}

#[test]
fn validaciones_de_administracion() {
    assert!(validar_rol_workspace("admin").is_ok());
    assert!(validar_rol_workspace("member").is_ok());
    assert_eq!(
        respuesta(validar_rol_workspace("dev")),
        (422, "El rol debe ser 'admin' o 'member'".to_string())
    );
    assert_eq!(
        respuesta(validar_eliminacion_miembro(4, 4)),
        (422, "No se puede eliminar al propietario del workspace".to_string())
    );
    assert!(validar_eliminacion_miembro(4, 5).is_ok());
    assert_eq!(
        respuesta(comprobar_miembro_eliminado(0)),
        (404, "Miembro no encontrado".to_string())
    );
    assert!(comprobar_miembro_eliminado(1).is_ok());
    assert_eq!(
        respuesta(validar_desactivacion(8, 8)),
        (422, "No puedes desactivar tu propia cuenta".to_string())
    );
    assert!(validar_desactivacion(8, 1).is_ok());
}

#[test]
fn header_authorization() {
    assert_eq!(token_bearer(Some("Bearer abc.def")).unwrap(), "abc.def");
    assert_eq!(token_bearer(Some("Bearer ")).unwrap(), "");
    assert_eq!(
        respuesta(token_bearer(None)),
        (401, "Falta el header Authorization".to_string())
    );
    assert_eq!(
        respuesta(token_bearer(Some("Basic abc"))),
        (401, "Formato esperado: Authorization: Bearer <token>".to_string())
    );
    assert_eq!(
        respuesta(token_bearer(Some("Bear"))),
        (401, "Formato esperado: Authorization: Bearer <token>".to_string())
    );
}

#[test]
fn codigos_y_mensajes_de_error() {
    assert_eq!(AppError::DemasiadosIntentos.codigo_http(), 429);
    assert_eq!(
        AppError::DemasiadosIntentos.mensaje_para_cliente(),
        "Demasiados intentos, espera unos minutos"
    );
    assert_eq!(AppError::Conflicto("x".to_string()).codigo_http(), 409);
    assert_eq!(AppError::Interno("detalle".to_string()).mensaje_para_cliente(), "Error interno del servidor");
    assert!(AppError::Prohibido("p".to_string()).detalle_interno().is_none());
}
