use backend::correo::{
    boton, envolver_correo, link_de_respaldo, logo_url, plantilla_alerta, plantilla_invitacion,
    plantilla_recuperacion, primer_origen,
};

const COLOR_FONDO: &str = "#f4f6fb";
const COLOR_TARJETA: &str = "#0d1836";
const COLOR_TEXTO: &str = "#eaf0ff";
const COLOR_TEXTO_SUAVE: &str = "#9aa4c4";
const COLOR_ACCENT: &str = "#06b6d4";
const COLOR_ACCENT_2: &str = "#22d3ee";

fn esperado_envoltura(logo: &str, cuerpo_html: &str) -> String {
    format!(
        r#"<!doctype html>
<html>
<body style="margin:0;padding:32px 16px;background:{COLOR_FONDO};font-family:-apple-system,'Segoe UI',Roboto,Helvetica,Arial,sans-serif;">
<table role="presentation" width="100%" style="max-width:480px;margin:0 auto;border-collapse:collapse;">
<tr>
<td style="padding-bottom:20px;text-align:center;">
<img src="{logo}" width="40" height="40" alt="Geck" style="display:inline-block;vertical-align:middle;border-radius:8px;" />
<span style="font-size:20px;font-weight:700;color:#0c1b3a;vertical-align:middle;margin-left:8px;">geck</span>
</td>
</tr>
<tr>
<td style="background:{COLOR_TARJETA};border-radius:16px;padding:32px;color:{COLOR_TEXTO};font-size:15px;line-height:1.6;">
{cuerpo_html}
</td>
</tr>
<tr>
<td style="padding-top:20px;text-align:center;font-size:12px;color:{COLOR_TEXTO_SUAVE};">
Gestor de Finanzas &middot; correo automático, no respondas a este mensaje.
</td>
</tr>
</table>
</body>
</html>"#
    )
}

fn esperado_boton(texto: &str, link: &str) -> String {
    format!(
        r#"<p style="text-align:center;margin:28px 0;">
<a href="{link}" style="background:{COLOR_ACCENT};color:#04202a;font-weight:700;text-decoration:none;padding:12px 28px;border-radius:10px;display:inline-block;">{texto}</a>
</p>"#
    )
}

fn esperado_respaldo(link: &str) -> String {
    format!(
        r#"<p style="margin:12px 0 0;color:{COLOR_TEXTO_SUAVE};font-size:13px;">Si el botón no funciona, copia y pega este link:<br/>
<a href="{link}" style="color:{COLOR_ACCENT_2};word-break:break-all;">{link}</a></p>"#
    )
}

#[test]
fn origen_del_frontend() {
    assert_eq!(primer_origen(None), "http://localhost:8080");
    assert_eq!(
        primer_origen(Some(" https://app.ejemplo.mx , http://localhost:8080")),
        "https://app.ejemplo.mx"
    );
    assert_eq!(primer_origen(Some("https://solo.uno")), "https://solo.uno");
    assert_eq!(primer_origen(Some("")), "");
    assert_eq!(primer_origen(Some(",https://b")), "");
}

#[test]
fn url_del_logo() {
    assert_eq!(logo_url("https://x.mx"), "https://x.mx/assets/icon-192.png");
}

#[test]
fn piezas_del_correo() {
    assert_eq!(boton("Ir", "https://l"), esperado_boton("Ir", "https://l"));
    assert_eq!(link_de_respaldo("https://l"), esperado_respaldo("https://l"));
    assert_eq!(
        envolver_correo("https://o", "<p>hola</p>"),
        esperado_envoltura("https://o/assets/icon-192.png", "<p>hola</p>")
    );
}

#[test]
fn correo_de_invitacion() {
    let link = "https://o/invitaciones/aceptar?token=abc";
    let cuerpo = format!(
        r#"<p style="margin:0;">Te invitaron a un workspace en <strong>Gestor de Finanzas</strong>.</p>
{boton}
<p style="margin:0;color:{COLOR_TEXTO_SUAVE};font-size:13px;">Este link expira en 72 horas y solo funciona una vez.</p>
{respaldo}"#,
        boton = esperado_boton("Aceptar invitación", link),
        respaldo = esperado_respaldo(link),
    );
    assert_eq!(
        plantilla_invitacion("https://o", link),
        esperado_envoltura("https://o/assets/icon-192.png", &cuerpo)
    );
}

#[test]
fn correo_de_recuperacion() {
    let link = "https://o/recuperar-password?token=xyz";
    let cuerpo = format!(
        r#"<p style="margin:0;">Pediste recuperar tu contraseña en <strong>Gestor de Finanzas</strong>.</p>
{boton}
<p style="margin:0;color:{COLOR_TEXTO_SUAVE};font-size:13px;">Este link expira en 1 hora y solo funciona una vez. Si no fuiste tú, ignora este correo.</p>
{respaldo}"#,
        boton = esperado_boton("Elegir contraseña nueva", link),
        respaldo = esperado_respaldo(link),
    );
    assert_eq!(
        plantilla_recuperacion("https://o", link),
        esperado_envoltura("https://o/assets/icon-192.png", &cuerpo)
    );
}

#[test]
fn correo_de_alerta() {
    let cuerpo = format!(
        r#"<p style="margin:0 0 6px;color:{COLOR_ACCENT_2};font-weight:700;font-size:16px;">{titulo}</p>
<p style="margin:0;">{body}</p>"#,
        titulo = "Presupuesto alcanzado: Comida",
        body = "Comida: llevas 100.00 de 100.00 (100%).",
    );
    assert_eq!(
        plantilla_alerta(
            "http://localhost:8080",
            "Presupuesto alcanzado: Comida",
            "Comida: llevas 100.00 de 100.00 (100%)."
        ),
        esperado_envoltura("http://localhost:8080/assets/icon-192.png", &cuerpo)
    );
}
