//! Reglas de negocio del gestor de finanzas personales: validaciones,
//! fechas de calendario, aritmética de montos, cálculo de inversiones,
//! metas, presupuestos y autorización, con sus contratos verificados.
pub mod decimal;
pub mod fecha;
pub mod errores;
pub mod texto;
pub mod inversiones;
pub mod comun;
pub mod contabilidad;
pub mod cuentas;
pub mod metas;
pub mod roles;
pub mod tokens;
pub mod usuarios;
pub mod sesion;
pub mod correo;
pub mod analitica;
pub mod recordatorios;
pub mod peticiones;
pub mod arranque;
