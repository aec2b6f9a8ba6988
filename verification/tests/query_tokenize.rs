use codebeacon::query::tokenize::{light_stem, split_ident, tokenize, tokenize_checked};
use codebeacon::query::bm25::{doc_from_text, DocKind, SearchDoc};

#[test]
fn camel_and_snake_split() {
    assert_eq!(split_ident("userLogin"), vec!["user", "Login"]);
    assert_eq!(split_ident("user_login"), vec!["user", "login"]);
    assert_eq!(split_ident("HTTPServer"), vec!["HTTP", "Server"]);
}

#[test]
fn auth_stems_toward_authentication() {
    let a = tokenize("auth");
    let b = tokenize("authentication");
    assert!(a.iter().any(|t| b.contains(t)) || b.iter().any(|t| a.contains(t)));
}

#[test]
fn login_matches_user_login_tokens() {
    let q = tokenize("login");
    let doc = tokenize("user_login");
    assert!(q.iter().any(|t| doc.contains(t)));
}

#[test]
fn tokenize_exact_terms() {
    assert_eq!(tokenize("authentication"), vec!["auth", "authentic"]);
    assert_eq!(tokenize("the user_login"), vec!["user", "user", "logi", "login"]);
}

#[test]
fn tokenize_drops_stopwords_and_short_parts() {
    assert!(tokenize("a of to x").is_empty());
    assert_eq!(tokenize("HTTPServer"), vec!["http", "http", "serv", "serv"]);
}

#[test]
fn split_ident_digits_and_paths() {
    assert_eq!(split_ident("src/auth.rs"), vec!["src", "auth", "rs"]);
    assert_eq!(split_ident("v2Api"), vec!["v2", "Api"]);
    assert_eq!(split_ident("__"), vec!["__"]);
    assert!(split_ident("").is_empty());
}

#[test]
fn light_stem_cases() {
    assert_eq!(light_stem("authentication"), "authentic");
    assert_eq!(light_stem("running"), "runn");
    assert_eq!(light_stem("cats"), "cat");
    assert_eq!(light_stem("is"), "is");
    assert_eq!(light_stem("bus"), "bus");
    assert_eq!(light_stem("ies"), "ies");
}

fn sorted_tf(doc: &SearchDoc) -> Vec<(String, u32)> {
    let mut tf = doc.term_tf.clone();
    tf.sort();
    tf
}

#[test]
fn doc_counts_terms_and_soft_keys() {
    let doc = doc_from_text(DocKind::Symbol, "login".into(), "d".into(), "h".into(), None, "userLogin login");
    assert_eq!(doc.dl, 6);
    assert_eq!(doc.name, "login");
    assert_eq!(
        sorted_tf(&doc),
        vec![("logi".to_string(), 2), ("login".to_string(), 2), ("user".to_string(), 2)]
    );
    let sled = doc_from_text(DocKind::File, "f".into(), String::new(), String::new(), Some("p".into()), "dogsled");
    assert_eq!(sled.dl, 2);
    assert_eq!(
        sorted_tf(&sled),
        vec![("dog".to_string(), 0), ("dogs".to_string(), 1), ("dogsl".to_string(), 1)]
    );
    let empty = doc_from_text(DocKind::Package, "p".into(), String::new(), String::new(), None, "the a");
    assert_eq!(empty.dl, 1);
    assert!(empty.term_tf.is_empty());
}

#[test]
fn tokenize_checked_matches_tokenize() {
    assert_eq!(tokenize_checked("user_login authentication"), Some(tokenize("user_login authentication")));
    assert_eq!(tokenize_checked(""), Some(vec![]));
    // The stem's fourth byte falls inside `é`: no terms can be taken.
    assert_eq!(tokenize_checked("abcéz"), None);
}
