//! The renderer, the escape-sequence styling, and the message lines.

use rae_cli::lookup::{RaeError, not_found_line, progress_line, prompt_header, redirect_notice, url_for};
use rae_cli::render::{render_definition, resolve_width};
use rae_cli::style::{Annot, RichSpan, style_span};

#[test]
fn anidamiento_de_escapes() {
    let span = RichSpan {
        text: "hola".to_string(),
        tags: vec![Annot::Link("x".to_string()), Annot::Foreground(1, 2, 3)],
    };
    assert_eq!(
        style_span(&span),
        "\u{1b}[4m\u{1b}[38;2;1;2;3mhola\u{1b}[39m\u{1b}[24m"
    );
}

#[test]
fn color_de_fondo_se_descarta() {
    let span = RichSpan {
        text: "hola".to_string(),
        tags: vec![Annot::Background(9, 9, 9), Annot::Plain],
    };
    assert_eq!(style_span(&span), "hola");
}

#[test]
fn tripleta_de_color_literal() {
    let span = RichSpan {
        text: "t".to_string(),
        tags: vec![Annot::Foreground(255, 0, 128)],
    };
    assert_eq!(style_span(&span), "\u{1b}[38;2;255;0;128mt\u{1b}[39m");
}

#[test]
fn renderizar_es_idempotente() {
    let markup = "<p>primera l\u{ed}nea con bastante texto para envolver</p><p>segunda</p>";
    let a = render_definition(markup, Some(24));
    let b = render_definition(markup, Some(24));
    assert!(a.is_some());
    assert_eq!(a, b);
}

#[test]
fn sin_terminal_se_envuelve_a_80() {
    let markup = "<p>una definici\u{f3}n cualquiera de largo moderado</p>";
    assert_eq!(resolve_width(None), 80);
    assert_eq!(resolve_width(Some(24)), 24);
    assert_eq!(
        render_definition(markup, None),
        render_definition(markup, Some(80))
    );
}

#[test]
fn el_ancho_gobierna_el_envoltorio() {
    let markup = "<p>uno dos tres cuatro cinco seis siete ocho nueve diez</p>";
    let narrow = render_definition(markup, Some(12)).unwrap();
    let wide = render_definition(markup, Some(200)).unwrap();
    assert_ne!(narrow, wide);
    assert!(narrow.lines().all(|l| l.chars().count() <= 12));
}

#[test]
fn un_enlace_se_subraya() {
    let markup = "<p>ver <a href=\"https://example.org\">enlace</a></p>";
    let out = render_definition(markup, Some(80)).unwrap();
    let start = out.find("\u{1b}[4m").expect("underline start");
    let text = out.find("enlace").expect("link text");
    let end = out.find("\u{1b}[24m").expect("underline end");
    assert!(start < text && text < end);
}

#[test]
fn render_convierte_no_devuelve_el_marcado() {
    let markup = "<p>mam\u{ed}fero dom\u{e9}stico</p>";
    let out = render_definition(markup, Some(80)).unwrap();
    assert!(out.contains("mam\u{ed}fero dom\u{e9}stico"));
    assert!(!out.contains("<p>"));
}

#[test]
fn mensajes_de_error() {
    assert_eq!(
        RaeError::ResponseError(503).message(),
        "[Error]: 503, latest version?"
    );
    assert_eq!(
        RaeError::ResponseError(404).message(),
        "[Error]: 404, latest version?"
    );
    assert_eq!(
        RaeError::UnexpectedSiteStructure.message(),
        "[Error]: Unexpected site structre. latest version? something changed? please report :/"
    );
    assert_eq!(
        RaeError::SelectError("no tty".to_string()).message(),
        "[Error]: no tty"
    );
    assert_eq!(
        RaeError::HtmlParseError.message(),
        "[Error]: the definition could not be converted to text"
    );
}

#[test]
fn lineas_para_el_usuario() {
    assert_eq!(url_for("perro"), "https://dle.rae.es/perro");
    assert_eq!(progress_line("perro"), "Datos de: https://dle.rae.es/perro");
    assert_eq!(
        not_found_line("perro"),
        "La palabra perro no est\u{e1} en el Diccionario."
    );
    assert_eq!(
        redirect_notice("hacerse"),
        "La palabra no est\u{e1} en el Diccionario. Las entradas que se muestran a continuaci\u{f3}n podr\u{ed}an estar relacionadas: hacerse"
    );
    assert_eq!(
        prompt_header(),
        "La palabra no est\u{e1} en el Diccionario. Las entradas que se muestran a continuaci\u{f3}n podr\u{ed}an estar relacionadas:"
    );
}
