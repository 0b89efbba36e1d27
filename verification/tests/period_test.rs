use spotifier_core::{Period, ScraperError, Semester};

#[test]
fn test_period_parsing() {
    // Parsing from academic year labels
    let period = Period::from_academic_year_string("2025/2026 - Genap").unwrap();
    assert_eq!(period.year, 2025);
    assert_eq!(period.semester, Semester::Even);
    assert_eq!(period.format(), "20252");

    let period2 = Period::from_academic_year_string("2024/2025 - Ganjil").unwrap();
    assert_eq!(period2.year, 2024);
    assert_eq!(period2.semester, Semester::Odd);
    assert_eq!(period2.format(), "20241");

    let period3 = Period::from_academic_year_string("2025/2026 - SP").unwrap();
    assert_eq!(period3.semester, Semester::Short);
    assert_eq!(period3.format(), "20253");

    // Invalid format
    let invalid = Period::from_academic_year_string("Invalid");
    assert!(invalid.is_err());
}

#[test]
fn test_period_formatting() {
    let period = Period::new(2025, Semester::Odd);
    assert_eq!(period.format(), "20251");
    assert_eq!(format!("{}", period.format()), "20251");

    let period2 = Period::new(2024, Semester::Even);
    assert_eq!(period2.format(), "20242");
}

#[test]
fn period_parse_rejects_malformed_labels() {
    // No dash separator at all
    assert!(matches!(
        Period::from_academic_year_string("2025/2026 Genap"),
        Err(ScraperError::ParsingError(_))
    ));
    // More than one dash
    assert!(matches!(
        Period::from_academic_year_string("2025/2026 - Genap - extra"),
        Err(ScraperError::ParsingError(_))
    ));
    // Unrecognized semester token
    assert!(matches!(
        Period::from_academic_year_string("2025/2026 - Summer"),
        Err(ScraperError::ParsingError(_))
    ));
    // Year that is not a number
    assert!(matches!(
        Period::from_academic_year_string("abcd/2026 - Genap"),
        Err(ScraperError::ParsingError(_))
    ));
    // Empty year segment
    assert!(matches!(
        Period::from_academic_year_string("/2026 - Genap"),
        Err(ScraperError::ParsingError(_))
    ));
}

#[test]
fn period_parse_is_case_insensitive_and_trims() {
    let p = Period::from_academic_year_string("  2023/2024   -   GENAP ").unwrap();
    assert_eq!(p.year, 2023);
    assert_eq!(p.semester, Semester::Even);

    let q = Period::from_academic_year_string("2022/2023 - semester pendek").unwrap();
    assert_eq!(q.semester, Semester::Short);
}

#[test]
fn period_path_segment_round_trip() {
    for (year, sem) in [
        (2025u16, Semester::Odd),
        (2024, Semester::Even),
        (999, Semester::Short),
        (0, Semester::Odd),
        (u16::MAX, Semester::Short),
    ] {
        let p = Period::new(year, sem);
        let seg = p.format();
        let back = Period::from_path_segment(&seg).unwrap();
        assert_eq!(back, p);
    }
}

#[test]
fn period_path_segment_rejects_malformed() {
    assert!(Period::from_path_segment("").is_err());
    assert!(Period::from_path_segment("2").is_err());
    assert!(Period::from_path_segment("20254").is_err()); // unknown semester code
    assert!(Period::from_path_segment("20a51").is_err());
    assert!(Period::from_path_segment("999999").is_err()); // year out of range
}

#[test]
fn test_semester_types() {
    assert_eq!(Semester::Odd.as_num(), 1);
    assert_eq!(Semester::Even.as_num(), 2);
    assert_eq!(Semester::Short.as_num(), 3);
    for semester in [Semester::Odd, Semester::Even, Semester::Short] {
        let p = Period::new(2025, semester);
        assert_eq!(p.format().len(), 5);
    }
}
