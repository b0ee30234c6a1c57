use soc::southbridge::intel::i82371eb::wakeup::{acpi_get_sleep_type, acpi_sus_to_slp_typ};
use soc::southbridge::intel::i82371eb::{DEFAULT_PMBASE, PMCNTRL};

#[test]
fn sleep_type_from_suspend_type_field() {
    assert_eq!(acpi_sus_to_slp_typ(), [5, 3, 2, 1, 1, 0, 0, 0]);
    assert_eq!(acpi_get_sleep_type(0), 5);
    assert_eq!(acpi_get_sleep_type(1 << 10), 3);
    assert_eq!(acpi_get_sleep_type(2 << 10), 2);
    assert_eq!(acpi_get_sleep_type(3 << 10), 1);
    assert_eq!(acpi_get_sleep_type(4 << 10), 1);
    assert_eq!(acpi_get_sleep_type(5 << 10), 0);
    assert_eq!(acpi_get_sleep_type(0xffff), 0);
    // other bits do not matter
    assert_eq!(acpi_get_sleep_type((1 << 10) | 0x2003), 3);
    assert_eq!(DEFAULT_PMBASE + PMCNTRL, 0xe404);
}
