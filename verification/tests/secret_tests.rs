use imap_codec::secret::Secret;

#[test]
fn test_that_secret_is_redacted() {
    let secret = Secret::new(String::from("xyz123"));
    let got = secret.redacted();
    println!("{}", got);
    assert!(!got.contains("xyz123"));

    let password = Secret::new(String::from("xyz123"));
    let got = format!("password: {}", password.redacted());
    println!("{}", got);
    assert!(!got.contains("xyz123"));
}

#[test]
fn test_that_eq_is_constant_time() {
    let took_constant = {
        fn compare_eq(a: Secret<String>, b: Secret<String>) -> u128 {
            let tik = std::time::Instant::now();
            for _ in 0..1000 {
                assert!(std::hint::black_box(&a) == std::hint::black_box(&b));
            }
            let tok = std::time::Instant::now();

            tok.duration_since(tik).as_nanos() / 1000
        }

        fn compare_ne(a: Secret<String>, b: Secret<String>) -> u128 {
            let tik = std::time::Instant::now();
            for _ in 0..1000 {
                assert!(!(std::hint::black_box(&a) == std::hint::black_box(&b)));
            }
            let tok = std::time::Instant::now();

            tok.duration_since(tik).as_nanos() / 1000
        }

        let a = Secret::new(str::repeat("A", 4096));
        let b = Secret::new(str::repeat("B", 4096));

        let took1 = compare_eq(a.clone(), a.clone());
        println!("{}", took1);
        let took2 = compare_ne(a.clone(), b.clone());
        println!("{}", took2);
        let took3 = compare_ne(b.clone(), a.clone());
        println!("{}", took3);
        let took4 = compare_eq(b.clone(), b.clone());
        println!("{}", took4);

        (took1 + took2 + took3 + took4) / 4
    };

    let took_variable = {
        fn compare_eq(a: String, b: String) -> u128 {
            let tik = std::time::Instant::now();
            for _ in 0..1000 {
                assert!(std::hint::black_box(&a) == std::hint::black_box(&b));
            }
            let tok = std::time::Instant::now();

            tok.duration_since(tik).as_nanos() / 1000
        }

        fn compare_ne(a: String, b: String) -> u128 {
            let tik = std::time::Instant::now();
            for _ in 0..1000 {
                assert!(!(std::hint::black_box(&a) == std::hint::black_box(&b)));
            }
            let tok = std::time::Instant::now();

            tok.duration_since(tik).as_nanos() / 1000
        }

        let a = str::repeat("A", 4096);
        let b = str::repeat("B", 4096);

        // Warm the caches so the timed comparisons measure the comparison,
        // not the first touch of the buffers.
        assert!(a.clone() == a.clone());
        assert!(!(a.clone() == b.clone()));

        let took1 = compare_eq(a.clone(), a.clone());
        println!("{}", took1);
        let took2 = compare_ne(a.clone(), b.clone());
        println!("{}", took2);
        let took3 = compare_ne(b.clone(), a.clone());
        println!("{}", took3);
        let took4 = compare_eq(b.clone(), b.clone());
        println!("{}", took4);

        (took1 + took2 + took3 + took4) / 4
    };

    let times = took_constant / if took_variable == 0 { 1 } else { took_variable };
    println!("{took_constant} vs {took_variable} ({times} times slower)");
    assert!(times > 100);
}

#[test]
fn test_that_compare_ct_is_constant_time() {
    let took_constant = {
        fn compare_eq(a: Secret<String>, b: Secret<String>) -> u128 {
            let tik = std::time::Instant::now();
            for _ in 0..1000 {
                assert!(std::hint::black_box(&a).compare_ct(std::hint::black_box(b.expose_secret())));
            }
            let tok = std::time::Instant::now();

            tok.duration_since(tik).as_nanos() / 1000
        }

        fn compare_ne(a: Secret<String>, b: Secret<String>) -> u128 {
            let tik = std::time::Instant::now();
            for _ in 0..1000 {
                assert!(!std::hint::black_box(&a).compare_ct(std::hint::black_box(b.expose_secret())));
            }
            let tok = std::time::Instant::now();

            tok.duration_since(tik).as_nanos() / 1000
        }

        let a = Secret::new(str::repeat("A", 4096));
        let b = Secret::new(str::repeat("B", 4096));

        let took1 = compare_eq(a.clone(), a.clone());
        println!("{}", took1);
        let took2 = compare_ne(a.clone(), b.clone());
        println!("{}", took2);
        let took3 = compare_ne(b.clone(), a.clone());
        println!("{}", took3);
        let took4 = compare_eq(b.clone(), b.clone());
        println!("{}", took4);

        (took1 + took2 + took3 + took4) / 4
    };

    let took_variable = {
        fn compare_eq(a: String, b: String) -> u128 {
            let tik = std::time::Instant::now();
            for _ in 0..1000 {
                assert!(std::hint::black_box(&a) == std::hint::black_box(&b));
            }
            let tok = std::time::Instant::now();

            tok.duration_since(tik).as_nanos() / 1000
        }

        fn compare_ne(a: String, b: String) -> u128 {
            let tik = std::time::Instant::now();
            for _ in 0..1000 {
                assert!(!(std::hint::black_box(&a) == std::hint::black_box(&b)));
            }
            let tok = std::time::Instant::now();

            tok.duration_since(tik).as_nanos() / 1000
        }

        let a = str::repeat("A", 4096);
        let b = str::repeat("B", 4096);

        // Warm the caches so the timed comparisons measure the comparison,
        // not the first touch of the buffers.
        assert!(a.clone() == a.clone());
        assert!(!(a.clone() == b.clone()));

        let took1 = compare_eq(a.clone(), a.clone());
        println!("{}", took1);
        let took2 = compare_ne(a.clone(), b.clone());
        println!("{}", took2);
        let took3 = compare_ne(b.clone(), a.clone());
        println!("{}", took3);
        let took4 = compare_eq(b.clone(), b.clone());
        println!("{}", took4);

        (took1 + took2 + took3 + took4) / 4
    };

    let times = took_constant / if took_variable == 0 { 1 } else { took_variable };
    println!("{took_constant} vs {took_variable} ({times} times slower)");
    assert!(times > 100);
}
