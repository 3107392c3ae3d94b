use esp_idf::error::{Error, EspError};
use esp_idf::nvs::{init_outcome, needs_erase};

#[test]
fn only_the_two_recovery_statuses_demand_an_erase() {
    assert!(needs_erase(0x110D));
    assert!(needs_erase(0x1110));
    assert!(!needs_erase(0));
    assert!(!needs_erase(-1));
    assert!(!needs_erase(0x101));
    assert!(!needs_erase(0x110C));
}

#[test]
fn a_clean_first_init_is_surfaced_directly() {
    assert_eq!(init_outcome(0, 0x101, 0x101), Ok(()));
    assert_eq!(
        init_outcome(0x103, 0, 0),
        Err(Error::EspIdf { error: EspError::InvalidState })
    );
}

#[test]
fn no_free_pages_triggers_erase_then_reinit() {
    assert_eq!(init_outcome(0x110D, 0, 0), Ok(()));
    assert_eq!(init_outcome(0x1110, 0, 0), Ok(()));
    assert_eq!(
        init_outcome(0x110D, 0, 0x105),
        Err(Error::EspIdf { error: EspError::NotFound })
    );
}

#[test]
fn a_failing_erase_is_reported_and_the_reinit_is_not_attempted() {
    assert_eq!(
        init_outcome(0x110D, 0x101, 0),
        Err(Error::EspIdf { error: EspError::NoMem })
    );
    assert_eq!(
        init_outcome(0x1110, -1, 0),
        Err(Error::EspIdf { error: EspError::Fail })
    );
}
