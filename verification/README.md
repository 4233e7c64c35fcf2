# Gestor de Finanzas — backend

Backend de un gestor de finanzas familiar con varios espacios de trabajo
(workspaces): cuentas y transferencias, transacciones con categorías y
etiquetas, suscripciones y presupuestos, pagos previstos, metas de ahorro,
inversiones con devengo diario de rendimiento e ISR, analítica y
notificaciones.

## Organización

- `src/` — la biblioteca `backend`, escrita en Verus: reglas de negocio,
  validaciones, cálculos con `Decimal` y fechas de calendario, decisiones
  de inicio de sesión y de tokens, plantillas de correo y armado de las
  gráficas. Cada función pública tiene un contrato (`requires` /
  `ensures`) demostrado por Verus; las propiedades que relacionan varias
  funciones están como funciones `proof` públicas (`ley_*`).
  - `decimal`, `fecha`, `texto`: montos (`Monto`, con su mantisa y su
    escala; su vista es el valor en unidades de 10^-28), fechas (`Fecha`:
    año, mes y día; los contratos las comparan por su número de día,
    `ordinal`) y texto.
  - `errores`, `roles`, `sesion`, `tokens`, `usuarios`: errores HTTP,
    autorización, login con bloqueo por intentos fallidos, refresh tokens
    e invitaciones, contraseñas.
  - `contabilidad`, `cuentas`, `metas`, `inversiones`: movimientos y sus
    efectos en saldos, suscripciones, transferencias, aportes a metas y
    rendimientos.
  - `analitica`, `recordatorios`, `correo`, `peticiones`, `arranque`,
    `comun`: métricas y gráficas, avisos, correos HTML, datos de entrada y
    configuración.
- `tests/` — pruebas de la biblioteca sobre valores concretos.
- `app/` — el servidor HTTP (axum + PostgreSQL con sqlx, JWT, correo vía
  Resend): lee y escribe la base, y delega cada decisión en la
  biblioteca.
