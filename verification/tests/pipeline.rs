//! The lookup pipeline driven end to end on stubbed pages.

use rae_cli::lookup::{ChoiceReply, FetchReply, Lookup, RaeError, RaeSuccess, Step, url_for};
use rae_cli::page::{Outcome, classify_page};

fn definition_page(body: &str) -> String {
    format!(
        "<html><body><div id=\"resultados\"><article>{}</article></div></body></html>",
        body
    )
}

fn suggestion_page(links: &[&str]) -> String {
    let mut anchors = String::new();
    for l in links {
        anchors.push_str(&format!("<a>{}</a>", l));
    }
    format!(
        "<html><body><div id=\"resultados\"><div class=\"item-list\">{}</div></div></body></html>",
        anchors
    )
}

#[test]
fn definicion_perro() {
    let page = definition_page("<p>mam\u{ed}fero dom\u{e9}stico</p>");
    let (mut lk, step) = Lookup::start("perro".to_string());
    assert_eq!(
        step,
        Step::Fetch { term: "perro".to_string(), redirected: false }
    );
    let step = lk.on_page(FetchReply::Response(200, page), Some(80));
    match step {
        Step::Finished(Ok(RaeSuccess::Definicion(text))) => {
            assert!(text.contains("mam\u{ed}fero dom\u{e9}stico"));
        }
        other => panic!("expected a rendered definition, got {:?}", other),
    }
    assert!(!lk.expects_page());
    assert!(!lk.expects_choice());
}

#[test]
fn sugerencias_hacer() {
    let first = suggestion_page(&["hacer", "hacerse", "deshacer"]);
    let second = definition_page("<p>deshacer lo hecho</p>");

    let (mut lk, _) = Lookup::start("hacer".to_string());
    let step = lk.on_page(FetchReply::Response(200, first), Some(80));
    assert_eq!(
        step,
        Step::Choose(vec![
            "hacer".to_string(),
            "hacerse".to_string(),
            "deshacer".to_string()
        ])
    );
    assert!(lk.expects_choice());

    let step = lk.on_choice(ChoiceReply::Chosen("deshacer".to_string()));
    assert_eq!(
        step,
        Step::Fetch { term: "deshacer".to_string(), redirected: false }
    );
    assert_eq!(url_for("deshacer"), "https://dle.rae.es/deshacer");

    let step = lk.on_page(FetchReply::Response(200, second.clone()), Some(80));

    let (mut fresh, _) = Lookup::start("deshacer".to_string());
    let fresh_step = fresh.on_page(FetchReply::Response(200, second), Some(80));
    assert_eq!(step, fresh_step);
}

#[test]
fn respuesta_503() {
    let (mut lk, _) = Lookup::start("perro".to_string());
    let step = lk.on_page(
        FetchReply::Response(503, "<p>service unavailable</p>".to_string()),
        Some(80),
    );
    assert_eq!(
        step,
        Step::Finished(Err(RaeError::ResponseError(503)))
    );
}

#[test]
fn sugerencia_unica_se_sigue_sin_preguntar() {
    let first = suggestion_page(&["hacerse"]);
    let second = definition_page("<p>llegar a ser</p>");

    let (mut lk, _) = Lookup::start("hacer".to_string());
    let step = lk.on_page(FetchReply::Response(200, first), Some(80));
    assert_eq!(
        step,
        Step::Fetch { term: "hacerse".to_string(), redirected: true }
    );

    let step = lk.on_page(FetchReply::Response(200, second.clone()), Some(80));
    let (mut fresh, _) = Lookup::start("hacerse".to_string());
    let fresh_step = fresh.on_page(FetchReply::Response(200, second), Some(80));
    assert_eq!(step, fresh_step);
}

#[test]
fn region_sin_marcadores_es_no_encontrado() {
    let page = "<html><body><div id=\"resultados\"><p>nada que ver</p></div></body></html>";
    let (mut lk, _) = Lookup::start("zzz".to_string());
    let step = lk.on_page(FetchReply::Response(200, page.to_string()), Some(80));
    assert_eq!(step, Step::Finished(Ok(RaeSuccess::NoEncontrado)));
}

#[test]
fn pagina_sin_region_es_fallo_estructural() {
    let page = "<html><body><p>portada nueva</p></body></html>";
    let (mut lk, _) = Lookup::start("perro".to_string());
    let step = lk.on_page(FetchReply::Response(200, page.to_string()), Some(80));
    assert_eq!(
        step,
        Step::Finished(Err(RaeError::UnexpectedSiteStructure))
    );
}

#[test]
fn fallo_de_transporte() {
    let (mut lk, _) = Lookup::start("perro".to_string());
    let step = lk.on_page(FetchReply::Failed("connection refused".to_string()), None);
    match step {
        Step::Finished(Err(e)) => {
            assert_eq!(e, RaeError::RequestError("connection refused".to_string()));
            assert_eq!(
                e.message(),
                "[Error]: connection refused, internet avialable? site down?"
            );
        }
        other => panic!("expected a transport failure, got {:?}", other),
    }
}

#[test]
fn cancelar_la_seleccion_es_fatal() {
    let first = suggestion_page(&["uno", "dos"]);
    let (mut lk, _) = Lookup::start("tres".to_string());
    let step = lk.on_page(FetchReply::Response(200, first), None);
    assert!(matches!(step, Step::Choose(_)));
    let step = lk.on_choice(ChoiceReply::Aborted("operation interrupted".to_string()));
    assert_eq!(
        step,
        Step::Finished(Err(RaeError::SelectError(
            "operation interrupted".to_string()
        )))
    );
}

#[test]
fn sugerencia_ciclica_termina_como_no_encontrado() {
    let page = suggestion_page(&["hacer"]);
    let (mut lk, _) = Lookup::start("hacer".to_string());
    let step = lk.on_page(FetchReply::Response(200, page), None);
    assert_eq!(step, Step::Finished(Ok(RaeSuccess::NoEncontrado)));
}

#[test]
fn elegir_termino_ya_intentado_termina_como_no_encontrado() {
    let page = suggestion_page(&["hacer", "hacerse"]);
    let (mut lk, _) = Lookup::start("hacer".to_string());
    let step = lk.on_page(FetchReply::Response(200, page), None);
    assert!(matches!(step, Step::Choose(_)));
    let step = lk.on_choice(ChoiceReply::Chosen("hacer".to_string()));
    assert_eq!(step, Step::Finished(Ok(RaeSuccess::NoEncontrado)));
}

#[test]
fn solo_los_estados_de_exito_se_aceptan() {
    let page = definition_page("<p>uno</p>");
    let (mut lk, _) = Lookup::start("uno".to_string());
    let step = lk.on_page(FetchReply::Response(199, page.clone()), Some(80));
    assert_eq!(step, Step::Finished(Err(RaeError::ResponseError(199))));

    let (mut lk, _) = Lookup::start("uno".to_string());
    let step = lk.on_page(FetchReply::Response(300, page.clone()), Some(80));
    assert_eq!(step, Step::Finished(Err(RaeError::ResponseError(300))));

    let (mut lk, _) = Lookup::start("uno".to_string());
    let step = lk.on_page(FetchReply::Response(299, page), Some(80));
    assert!(matches!(step, Step::Finished(Ok(RaeSuccess::Definicion(_)))));
}

#[test]
fn anclas_sin_texto_se_descartan() {
    let page = "<html><body><div id=\"resultados\"><div class=\"item-list\">\
                <a></a><a>real</a></div></div></body></html>";
    let (mut lk, _) = Lookup::start("rael".to_string());
    let step = lk.on_page(FetchReply::Response(200, page.to_string()), None);
    assert_eq!(
        step,
        Step::Fetch { term: "real".to_string(), redirected: true }
    );
}

#[test]
fn lista_vacia_es_no_encontrado() {
    let page = suggestion_page(&[]);
    let (mut lk, _) = Lookup::start("xyz".to_string());
    let step = lk.on_page(FetchReply::Response(200, page), None);
    assert_eq!(step, Step::Finished(Ok(RaeSuccess::NoEncontrado)));
}

#[test]
fn clasificar_definicion() {
    let page = definition_page("<p>uno</p>");
    // The whole region's inner markup, not the page and not just the article's
    // contents.
    assert_eq!(
        classify_page(&page),
        Some(Outcome::Definition("<article><p>uno</p></article>".to_string()))
    );
}

#[test]
fn clasificar_sugerencias() {
    let page = suggestion_page(&["alfa", "beta"]);
    assert_eq!(
        classify_page(&page),
        Some(Outcome::Suggestions(vec![
            "alfa".to_string(),
            "beta".to_string()
        ]))
    );
}

#[test]
fn los_duplicados_se_conservan() {
    let page = suggestion_page(&["a", "a", "b"]);
    assert_eq!(
        classify_page(&page),
        Some(Outcome::Suggestions(vec![
            "a".to_string(),
            "a".to_string(),
            "b".to_string()
        ]))
    );
}

#[test]
fn clasificar_sin_region() {
    assert_eq!(classify_page("<html><body></body></html>"), None);
}

#[test]
fn el_primer_marcador_decide() {
    let article_first = "<html><body><div id=\"resultados\"><article><p>def</p></article>\
                         <div class=\"item-list\"><a>otra</a></div></div></body></html>";
    assert!(matches!(
        classify_page(article_first),
        Some(Outcome::Definition(_))
    ));

    let list_first = "<html><body><div id=\"resultados\"><div class=\"item-list\">\
                      <a>otra</a></div><article><p>def</p></article></div></body></html>";
    assert_eq!(
        classify_page(list_first),
        Some(Outcome::Suggestions(vec!["otra".to_string()]))
    );
}
