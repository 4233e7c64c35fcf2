//! Cuerpos HTML de los correos transaccionales (invitación, recuperación
//! de contraseña, alertas) y el origen del frontend con que se arman sus
//! links. Todo el CSS va inline: los clientes de correo ignoran las hojas
//! de estilo externas y muchos recortan el `<style>` del `<head>`.
use vstd::prelude::*;
use crate::texto::{recortado, recortar};

verus! {

/// Colores del tema oscuro de la app (`--card`, `--text`, `--accent`).
pub const COLOR_FONDO: &'static str = "#f4f6fb";
pub const COLOR_TARJETA: &'static str = "#0d1836";
pub const COLOR_TEXTO: &'static str = "#eaf0ff";
pub const COLOR_TEXTO_SUAVE: &'static str = "#9aa4c4";
pub const COLOR_ACCENT: &'static str = "#06b6d4";
pub const COLOR_ACCENT_2: &'static str = "#22d3ee";

/// Origen que se usa cuando `FRONTEND_ORIGIN` no está definida.
pub const ORIGEN_POR_DEFECTO: &'static str = "http://localhost:8080";

/// Ruta del ícono PWA (PNG 192x192) que sirve de logo del correo.
pub const RUTA_LOGO: &'static str = "/assets/icon-192.png";

// Trozos fijos del esqueleto de todos los correos, entre los valores
// que se intercalan.
pub const ESQUELETO_INICIO: &'static str = "<!doctype html>\n<html>\n<body style=\"margin:0;padding:32px 16px;background:";
pub const ESQUELETO_ANTES_LOGO: &'static str = ";font-family:-apple-system,'Segoe UI',Roboto,Helvetica,Arial,sans-serif;\">\n<table role=\"presentation\" width=\"100%\" style=\"max-width:480px;margin:0 auto;border-collapse:collapse;\">\n<tr>\n<td style=\"padding-bottom:20px;text-align:center;\">\n<img src=\"";
pub const ESQUELETO_ANTES_TARJETA: &'static str = "\" width=\"40\" height=\"40\" alt=\"Geck\" style=\"display:inline-block;vertical-align:middle;border-radius:8px;\" />\n<span style=\"font-size:20px;font-weight:700;color:#0c1b3a;vertical-align:middle;margin-left:8px;\">geck</span>\n</td>\n</tr>\n<tr>\n<td style=\"background:";
pub const ESQUELETO_ANTES_TEXTO: &'static str = ";border-radius:16px;padding:32px;color:";
pub const ESQUELETO_ANTES_CUERPO: &'static str = ";font-size:15px;line-height:1.6;\">\n";
pub const ESQUELETO_ANTES_PIE: &'static str = "\n</td>\n</tr>\n<tr>\n<td style=\"padding-top:20px;text-align:center;font-size:12px;color:";
pub const ESQUELETO_FIN: &'static str = ";\">\nGestor de Finanzas &middot; correo automático, no respondas a este mensaje.\n</td>\n</tr>\n</table>\n</body>\n</html>";

pub const BOTON_INICIO: &'static str = "<p style=\"text-align:center;margin:28px 0;\">\n<a href=\"";
pub const BOTON_ANTES_COLOR: &'static str = "\" style=\"background:";
pub const BOTON_ANTES_TEXTO: &'static str = ";color:#04202a;font-weight:700;text-decoration:none;padding:12px 28px;border-radius:10px;display:inline-block;\">";
pub const BOTON_FIN: &'static str = "</a>\n</p>";

pub const RESPALDO_INICIO: &'static str = "<p style=\"margin:12px 0 0;color:";
pub const RESPALDO_ANTES_LINK: &'static str = ";font-size:13px;\">Si el botón no funciona, copia y pega este link:<br/>\n<a href=\"";
pub const RESPALDO_ANTES_COLOR: &'static str = "\" style=\"color:";
pub const RESPALDO_ANTES_TEXTO: &'static str = ";word-break:break-all;\">";
pub const RESPALDO_FIN: &'static str = "</a></p>";

pub const INVITACION_INICIO: &'static str = "<p style=\"margin:0;\">Te invitaron a un workspace en <strong>Gestor de Finanzas</strong>.</p>\n";
pub const INVITACION_AVISO: &'static str = ";font-size:13px;\">Este link expira en 72 horas y solo funciona una vez.</p>\n";
pub const RECUPERACION_INICIO: &'static str = "<p style=\"margin:0;\">Pediste recuperar tu contraseña en <strong>Gestor de Finanzas</strong>.</p>\n";
pub const RECUPERACION_AVISO: &'static str = ";font-size:13px;\">Este link expira en 1 hora y solo funciona una vez. Si no fuiste tú, ignora este correo.</p>\n";
pub const AVISO_INICIO: &'static str = "\n<p style=\"margin:0;color:";

pub const ALERTA_INICIO: &'static str = "<p style=\"margin:0 0 6px;color:";
pub const ALERTA_ANTES_TITULO: &'static str = ";font-weight:700;font-size:16px;\">";
pub const ALERTA_ANTES_CUERPO: &'static str = "</p>\n<p style=\"margin:0;\">";
pub const ALERTA_FIN: &'static str = "</p>";

/// Fin del primer segmento de `s` separado por comas: la posición de la
/// primera coma desde `desde` (o el largo si no hay).
pub open spec fn fin_de_segmento(s: Seq<char>, desde: int) -> int
    decreases s.len() - desde,
{
    if desde < 0 || desde >= s.len() || s[desde] == ',' {
        if desde < 0 { 0 } else if desde >= s.len() { s.len() as int } else { desde }
    } else {
        fin_de_segmento(s, desde + 1)
    }
}

/// El primer origen de una lista separada por comas, sin espacios
/// alrededor.
pub open spec fn primer_origen_spec(lista: Seq<char>) -> Seq<char> {
    recortado(lista.subrange(0, fin_de_segmento(lista, 0)))
}

pub proof fn lema_fin_de_segmento(s: Seq<char>, desde: int)
    requires
        0 <= desde <= s.len(),
    ensures
        desde <= fin_de_segmento(s, desde) <= s.len(),
        forall|k: int| desde <= k < fin_de_segmento(s, desde) ==> s[k] != ',',
        fin_de_segmento(s, desde) < s.len() ==> s[fin_de_segmento(s, desde)] == ',',
    decreases s.len() - desde,
{
    if desde < s.len() && s[desde] != ',' {
        lema_fin_de_segmento(s, desde + 1);
    }
}

/// Primer origen listado en `FRONTEND_ORIGIN` (`valor`, si la variable
/// está definida; puede traer varios separados por coma). Se usa para
/// armar los links que van dentro de los correos.
pub fn primer_origen(valor: Option<&str>) -> (r: String)
    ensures
        r@ == primer_origen_spec(
            match valor {
                Some(v) => v@,
                None => ORIGEN_POR_DEFECTO@,
            },
        ),
{
    let lista: &str = match valor {
        Some(v) => v,
        None => ORIGEN_POR_DEFECTO,
    };
    let n: usize = lista.unicode_len();
    let mut i: usize = 0;
    proof {
        lema_fin_de_segmento(lista@, 0);
    }
    while i < n && lista.get_char(i) != ','
        invariant
            n == lista@.len(),
            0 <= i <= n,
            fin_de_segmento(lista@, i as int) == fin_de_segmento(lista@, 0),
        decreases n - i,
    {
        i = i + 1;
    }
    let segmento = lista.substring_char(0, i);
    String::from_str(recortar(segmento))
}

/// URL pública del logo: `{origen}/assets/icon-192.png`.
pub open spec fn logo_url_spec(origen: Seq<char>) -> Seq<char> {
    origen + RUTA_LOGO@
}

/// URL pública del logo del correo (el ícono PWA, en PNG: muchos clientes
/// de correo no muestran SVG).
pub fn logo_url(origen: &str) -> (r: String)
    ensures
        r@ == logo_url_spec(origen@),
{
    String::from_str(origen).concat(RUTA_LOGO)
}

/// El esqueleto común: logo y marca arriba, tarjeta oscura con el
/// mensaje, pie de página.
pub open spec fn envolver_correo_spec(origen: Seq<char>, cuerpo_html: Seq<char>) -> Seq<char> {
    ESQUELETO_INICIO@ + COLOR_FONDO@ + ESQUELETO_ANTES_LOGO@ + logo_url_spec(origen)
        + ESQUELETO_ANTES_TARJETA@ + COLOR_TARJETA@ + ESQUELETO_ANTES_TEXTO@ + COLOR_TEXTO@
        + ESQUELETO_ANTES_CUERPO@ + cuerpo_html + ESQUELETO_ANTES_PIE@ + COLOR_TEXTO_SUAVE@
        + ESQUELETO_FIN@
}

/// Envuelve el contenido de un correo en el esqueleto común (maquetado con
/// `table role="presentation"`, que Outlook sí respeta).
pub fn envolver_correo(origen: &str, cuerpo_html: &str) -> (r: String)
    ensures
        r@ == envolver_correo_spec(origen@, cuerpo_html@),
{
    let logo = logo_url(origen);
    String::from_str(ESQUELETO_INICIO).concat(COLOR_FONDO).concat(ESQUELETO_ANTES_LOGO).concat(
        logo.as_str(),
    ).concat(ESQUELETO_ANTES_TARJETA).concat(COLOR_TARJETA).concat(ESQUELETO_ANTES_TEXTO).concat(
        COLOR_TEXTO,
    ).concat(ESQUELETO_ANTES_CUERPO).concat(cuerpo_html).concat(ESQUELETO_ANTES_PIE).concat(
        COLOR_TEXTO_SUAVE,
    ).concat(ESQUELETO_FIN)
}

/// Botón de acción: fondo con el color de acento, texto oscuro.
pub open spec fn boton_spec(texto: Seq<char>, link: Seq<char>) -> Seq<char> {
    BOTON_INICIO@ + link + BOTON_ANTES_COLOR@ + COLOR_ACCENT@ + BOTON_ANTES_TEXTO@ + texto
        + BOTON_FIN@
}

/// Botón de acción (CTA) que lleva a `link` con el rótulo `texto`.
pub fn boton(texto: &str, link: &str) -> (r: String)
    ensures
        r@ == boton_spec(texto@, link@),
{
    String::from_str(BOTON_INICIO).concat(link).concat(BOTON_ANTES_COLOR).concat(COLOR_ACCENT).concat(
        BOTON_ANTES_TEXTO,
    ).concat(texto).concat(BOTON_FIN)
}

/// Párrafo de respaldo con el link plano.
pub open spec fn link_de_respaldo_spec(link: Seq<char>) -> Seq<char> {
    RESPALDO_INICIO@ + COLOR_TEXTO_SUAVE@ + RESPALDO_ANTES_LINK@ + link + RESPALDO_ANTES_COLOR@
        + COLOR_ACCENT_2@ + RESPALDO_ANTES_TEXTO@ + link + RESPALDO_FIN@
}

/// Párrafo con el link plano, para cuando el botón no se pueda usar.
pub fn link_de_respaldo(link: &str) -> (r: String)
    ensures
        r@ == link_de_respaldo_spec(link@),
{
    String::from_str(RESPALDO_INICIO).concat(COLOR_TEXTO_SUAVE).concat(RESPALDO_ANTES_LINK).concat(
        link,
    ).concat(RESPALDO_ANTES_COLOR).concat(COLOR_ACCENT_2).concat(RESPALDO_ANTES_TEXTO).concat(
        link,
    ).concat(RESPALDO_FIN)
}

/// Cuerpo de un correo con un enlace de un solo uso: presentación, botón,
/// aviso de vencimiento y link de respaldo.
pub open spec fn cuerpo_con_link_spec(
    inicio: Seq<char>,
    rotulo: Seq<char>,
    aviso: Seq<char>,
    link: Seq<char>,
) -> Seq<char> {
    inicio + boton_spec(rotulo, link) + AVISO_INICIO@ + COLOR_TEXTO_SUAVE@ + aviso
        + link_de_respaldo_spec(link)
}

fn cuerpo_con_link(inicio: &str, rotulo: &str, aviso: &str, link: &str) -> (r: String)
    ensures
        r@ == cuerpo_con_link_spec(inicio@, rotulo@, aviso@, link@),
{
    let b = boton(rotulo, link);
    let respaldo = link_de_respaldo(link);
    String::from_str(inicio).concat(b.as_str()).concat(AVISO_INICIO).concat(COLOR_TEXTO_SUAVE).concat(
        aviso,
    ).concat(respaldo.as_str())
}

/// Correo de invitación a un workspace; `link` ya incluye el token.
pub fn plantilla_invitacion(origen: &str, link: &str) -> (r: String)
    ensures
        r@ == envolver_correo_spec(
            origen@,
            cuerpo_con_link_spec(INVITACION_INICIO@, "Aceptar invitación"@, INVITACION_AVISO@, link@),
        ),
{
    let cuerpo = cuerpo_con_link(INVITACION_INICIO, "Aceptar invitación", INVITACION_AVISO, link);
    envolver_correo(origen, cuerpo.as_str())
}

/// Correo de recuperación de contraseña; `link` ya incluye el token.
pub fn plantilla_recuperacion(origen: &str, link: &str) -> (r: String)
    ensures
        r@ == envolver_correo_spec(
            origen@,
            cuerpo_con_link_spec(
                RECUPERACION_INICIO@,
                "Elegir contraseña nueva"@,
                RECUPERACION_AVISO@,
                link@,
            ),
        ),
{
    let cuerpo = cuerpo_con_link(
        RECUPERACION_INICIO,
        "Elegir contraseña nueva",
        RECUPERACION_AVISO,
        link,
    );
    envolver_correo(origen, cuerpo.as_str())
}

/// Cuerpo de una alerta: título destacado y texto.
pub open spec fn cuerpo_alerta_spec(titulo: Seq<char>, body: Seq<char>) -> Seq<char> {
    ALERTA_INICIO@ + COLOR_ACCENT_2@ + ALERTA_ANTES_TITULO@ + titulo + ALERTA_ANTES_CUERPO@ + body
        + ALERTA_FIN@
}

/// Correo de una alerta (suscripción por vencer, presupuesto, tarjeta):
/// `titulo` y `body` son los mismos textos de la notificación.
pub fn plantilla_alerta(origen: &str, titulo: &str, body: &str) -> (r: String)
    ensures
        r@ == envolver_correo_spec(origen@, cuerpo_alerta_spec(titulo@, body@)),
{
    let cuerpo = String::from_str(ALERTA_INICIO).concat(COLOR_ACCENT_2).concat(ALERTA_ANTES_TITULO).concat(
        titulo,
    ).concat(ALERTA_ANTES_CUERPO).concat(body).concat(ALERTA_FIN);
    envolver_correo(origen, cuerpo.as_str())
}

} // verus!
