use flipperzero::furi::log::{
    Level, LevelFilter, ParseLevelError, ParseLevelFilterError, FURI_LOG_LEVEL_DEBUG,
    FURI_LOG_LEVEL_ERROR, FURI_LOG_LEVEL_INFO, FURI_LOG_LEVEL_NONE, FURI_LOG_LEVEL_TRACE,
    FURI_LOG_LEVEL_WARN,
};

#[test]
fn level_from_str() {
    assert_eq!("error".parse::<Level>().unwrap(), Level::ERROR);
}

#[test]
fn filter_level_conversion() {
    let mapping = [
        (LevelFilter::OFF, None),
        (LevelFilter::ERROR, Some(Level::ERROR)),
        (LevelFilter::WARN, Some(Level::WARN)),
        (LevelFilter::INFO, Some(Level::INFO)),
        (LevelFilter::DEBUG, Some(Level::DEBUG)),
        (LevelFilter::TRACE, Some(Level::TRACE)),
    ];
    for (filter, level) in mapping.iter() {
        assert_eq!(filter.into_level(), *level);
        match level {
            Some(level) => {
                let actual: LevelFilter = (*level).into();
                assert_eq!(actual, *filter);
            }
            None => {
                let actual: LevelFilter = None.into();
                assert_eq!(actual, *filter);
            }
        }
    }
}

#[test]
fn level_filter_reprs() {
    let mapping = [
        (LevelFilter::OFF, FURI_LOG_LEVEL_NONE as usize),
        (LevelFilter::ERROR, FURI_LOG_LEVEL_ERROR as usize),
        (LevelFilter::WARN, FURI_LOG_LEVEL_WARN as usize),
        (LevelFilter::INFO, FURI_LOG_LEVEL_INFO as usize),
        (LevelFilter::DEBUG, FURI_LOG_LEVEL_DEBUG as usize),
        (LevelFilter::TRACE, FURI_LOG_LEVEL_TRACE as usize),
    ];
    for &(filter, expected) in &mapping {
        let repr = filter.to_furi() as usize;
        assert_eq!(expected, repr, "repr changed for {:?}", filter)
    }
}

#[test]
fn level_comparisons_from_docs() {
    assert!(Level::TRACE > Level::DEBUG);
    assert!(Level::ERROR < Level::WARN);
    assert!(Level::INFO <= Level::DEBUG);
    assert_eq!(Level::TRACE, Level::TRACE);

    assert!(LevelFilter::OFF < Level::TRACE);
    assert!(LevelFilter::TRACE > Level::DEBUG);
    assert!(LevelFilter::ERROR < Level::WARN);
    assert!(LevelFilter::INFO <= Level::DEBUG);
    assert!(LevelFilter::INFO >= Level::INFO);
}

#[test]
fn level_enabled_by_filter() {
    assert!(Level::INFO <= LevelFilter::INFO);
    assert!(Level::ERROR <= LevelFilter::INFO);
    assert!(!(Level::DEBUG <= LevelFilter::INFO));
    assert!(!(Level::ERROR <= LevelFilter::OFF));
    assert!(Level::WARN == LevelFilter::WARN);
    assert!(LevelFilter::from_level(Level::DEBUG) == Level::DEBUG);
}

#[test]
fn level_parsing_ignores_case() {
    assert_eq!("ERROR".parse::<Level>(), Ok(Level::ERROR));
    assert_eq!("Warn".parse::<Level>(), Ok(Level::WARN));
    assert_eq!("iNfO".parse::<Level>(), Ok(Level::INFO));
    assert_eq!("debug".parse::<Level>(), Ok(Level::DEBUG));
    assert_eq!("TRACE".parse::<Level>(), Ok(Level::TRACE));
    assert_eq!("verbose".parse::<Level>(), Err(ParseLevelError));
    assert_eq!("".parse::<Level>(), Err(ParseLevelError));
    assert_eq!("off".parse::<Level>(), Err(ParseLevelError));
}

#[test]
fn level_filter_parsing() {
    assert_eq!("".parse::<LevelFilter>(), Ok(LevelFilter::ERROR));
    assert_eq!("OFF".parse::<LevelFilter>(), Ok(LevelFilter::OFF));
    assert_eq!("error".parse::<LevelFilter>(), Ok(LevelFilter::ERROR));
    assert_eq!("Trace".parse::<LevelFilter>(), Ok(LevelFilter::TRACE));
    assert_eq!("nope".parse::<LevelFilter>(), Err(ParseLevelFilterError));
}

#[test]
fn level_names_round_trip() {
    for level in [Level::ERROR, Level::WARN, Level::INFO, Level::DEBUG, Level::TRACE] {
        assert_eq!(level.as_str().parse::<Level>(), Ok(level));
    }
    assert_eq!(Level::WARN.as_str(), "WARN");
}

#[test]
fn level_filter_from_furi_level() {
    assert_eq!(LevelFilter::from_furi(0), LevelFilter::INFO);
    assert_eq!(LevelFilter::from_furi(1), LevelFilter::OFF);
    assert_eq!(LevelFilter::from_furi(2), LevelFilter::ERROR);
    assert_eq!(LevelFilter::from_furi(3), LevelFilter::WARN);
    assert_eq!(LevelFilter::from_furi(4), LevelFilter::INFO);
    assert_eq!(LevelFilter::from_furi(5), LevelFilter::DEBUG);
    assert_eq!(LevelFilter::from_furi(6), LevelFilter::TRACE);
    for filter in [
        LevelFilter::OFF,
        LevelFilter::ERROR,
        LevelFilter::WARN,
        LevelFilter::INFO,
        LevelFilter::DEBUG,
        LevelFilter::TRACE,
    ] {
        assert_eq!(LevelFilter::from_furi(filter.to_furi()), filter);
    }
    assert_eq!(Level::ERROR.to_furi(), 2);
}
