use cl_forge::{normalize_ppu, ppu_to_numeric, Ppu, PpuError, PpuFormat};

#[test]
fn normalize_digraph_example() {
    assert_eq!(normalize_ppu("AB1234"), Ok("011234".to_string()));
}

#[test]
fn normalize_digraph_codes() {
    assert_eq!(normalize_ppu("AA0000"), Ok("000000".to_string()));
    assert_eq!(normalize_ppu("JJ9999"), Ok("999999".to_string()));
    assert_eq!(normalize_ppu("ch-00.07"), Ok("270007".to_string()));
    assert_eq!(normalize_ppu("Ba 1234"), Ok("101234".to_string()));
}

#[test]
fn normalize_letter_codes() {
    assert_eq!(normalize_ppu("B12345"), Ok("112345".to_string()));
    assert_eq!(normalize_ppu("P00000"), Ok("000000".to_string()));
    assert_eq!(normalize_ppu("l-99999"), Ok("999999".to_string()));
    assert_eq!(normalize_ppu("K.12.345"), Ok("812345".to_string()));
}

#[test]
fn normalize_numeric_is_unchanged() {
    for d in ["000000", "011234", "123456", "999999"] {
        assert_eq!(normalize_ppu(d), Ok(d.to_string()));
    }
    assert_eq!(normalize_ppu("12-34-56"), Ok("123456".to_string()));
}

#[test]
fn normalize_is_idempotent() {
    for raw in ["AB1234", "B12345", "jj-00.00", "123456", " G 5 4 3 2 1 "] {
        let once = normalize_ppu(raw).unwrap();
        assert_eq!(once.len(), 6);
        assert!(once.chars().all(|c| c.is_ascii_digit()));
        assert_eq!(normalize_ppu(&once), Ok(once.clone()));
    }
}

#[test]
fn normalize_unknown_format() {
    for bad in ["", "AB123", "ABC123", "12345", "AB1234X", "ÑB1234"] {
        assert_eq!(normalize_ppu(bad), Err(PpuError::UnknownFormat { ppu: bad.to_string() }));
    }
}

#[test]
fn normalize_unknown_letter() {
    assert_eq!(normalize_ppu("A12345"), Err(PpuError::UnknownLetter { letter: "A".to_string() }));
    assert_eq!(normalize_ppu("z-12345"), Err(PpuError::UnknownLetter { letter: "z".to_string() }));
}

#[test]
fn normalize_unknown_digraph() {
    assert_eq!(
        normalize_ppu("AK1234"),
        Err(PpuError::UnknownDigraph { letters: "AK".to_string() })
    );
    assert_eq!(
        normalize_ppu("z.z.1234"),
        Err(PpuError::UnknownDigraph { letters: "zz".to_string() })
    );
}

#[test]
fn normalized_text_is_a_number() {
    assert_eq!(ppu_to_numeric(&normalize_ppu("AB1234").unwrap()), Ok(11234));
    assert_eq!(ppu_to_numeric(&normalize_ppu("B12345").unwrap()), Ok(112345));
}

#[test]
fn ppu_from_digraph_code() {
    let ppu = Ppu::new("ab-1234").unwrap();
    assert_eq!(ppu.raw(), "ab-1234");
    assert_eq!(ppu.normalized(), "011234");
    assert_eq!(ppu.numeric(), 11234);
    // 4*2 + 3*3 + 2*4 + 1*5 + 1*6 = 36, 36 % 11 = 3, 11 - 3 = 8
    assert_eq!(ppu.check_char(), '8');
    assert_eq!(ppu.format(), "LLNNNN");
    assert_eq!(ppu.complete(), "011234-8");
}

#[test]
fn ppu_from_letter_code() {
    let ppu = Ppu::new("B12345").unwrap();
    assert_eq!(ppu.raw(), "B12345");
    assert_eq!(ppu.normalized(), "112345");
    assert_eq!(ppu.numeric(), 112345);
    assert_eq!(ppu.check_char(), '9');
    assert_eq!(ppu.format(), "LNNNNN");
    assert_eq!(ppu.complete(), "112345-9");
}

#[test]
fn ppu_from_digits() {
    let ppu = Ppu::new("999999").unwrap();
    assert_eq!(ppu.normalized(), "999999");
    assert_eq!(ppu.numeric(), 999999);
    assert_eq!(ppu.check_char(), 'K');
    assert_eq!(ppu.format(), PpuFormat::Numeric.as_str());
    assert_eq!(ppu.complete(), "999999-K");
    let zero = Ppu::new("000000").unwrap();
    assert_eq!(zero.numeric(), 0);
    assert_eq!(zero.check_char(), '0');
}

#[test]
fn ppu_verifier_is_checksum_of_numeric() {
    for raw in ["AB1234", "JJ-99.99", "P00001", "L54321", "000014", "ca0006"] {
        let ppu = Ppu::new(raw).unwrap();
        assert_eq!(cl_forge::calculate_verifier(ppu.numeric()), Ok(ppu.check_char()));
        assert_eq!(cl_forge::validate_rut(ppu.numeric(), &ppu.check_char().to_string()), Ok(true));
    }
}

#[test]
fn ppu_construction_fails_like_normalization() {
    for bad in ["", "ABC123", "A12345", "AK1234", "12345"] {
        assert_eq!(Ppu::new(bad).err(), normalize_ppu(bad).err());
        assert!(Ppu::new(bad).is_err());
    }
}
