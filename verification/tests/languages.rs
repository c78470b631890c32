use gulpease::GulpeaseIndex;

#[test]
fn test_italian() {
    let gi = GulpeaseIndex::new();
    let text = "Questo è un testo di prova. È progettato per verificare l'indice di Gulpease.";
    let exact = gi.calculate(text);
    let score = exact.numerator() as f64 / exact.denominator() as f64;
    assert!(score >= 0.0 && score <= 100.0);
}

#[test]
fn test_german() {
    let gi = GulpeaseIndex::new();
    let text = "Dies ist ein Testtext. Es soll den Gulpease-Index überprüfen.";
    let exact = gi.calculate(text);
    let score = exact.numerator() as f64 / exact.denominator() as f64;
    assert!(score >= 0.0 && score <= 100.0);
}

#[test]
fn test_portuguese() {
    let gi = GulpeaseIndex::new();
    let text = "Este é um texto de teste. Ele é projetado para verificar o índice de Gulpease.";
    let exact = gi.calculate(text);
    let score = exact.numerator() as f64 / exact.denominator() as f64;
    assert!(score >= 0.0 && score <= 100.0);
}

#[test]
fn test_edge_cases() {
    let gi = GulpeaseIndex::new();
    let text = "";
    let exact = gi.calculate(text);
    let score = exact.numerator() as f64 / exact.denominator() as f64;
    assert_eq!(score, 0.0);

    let text = "A.";
    let exact = gi.calculate(text);
    let score = exact.numerator() as f64 / exact.denominator() as f64;
    assert!(score >= 0.0 && score <= 100.0);
}
