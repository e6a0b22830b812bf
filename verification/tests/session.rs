use applet_interface::AppletInterface;
use applet_interface::InterfaceError;
use applet_interface::Separator;
use applet_interface::status::decode_handshake;
use applet_interface::status::decode_status;

#[test]
fn invalid_applet_numbers_fail_before_any_io() {
    for app_num in [4u8, 5, 10, 100, 255] {
        let r = AppletInterface::new(app_num, Separator::Variable);
        match r {
            Err(e) => assert_eq!(e, InterfaceError::InvalidAppletNumber),
            Ok(_) => panic!("applet number {} must be rejected", app_num),
        }
    }
}

#[test]
fn valid_applet_numbers_start_zeroed() {
    for app_num in 0u8..=3 {
        let s = AppletInterface::new(app_num, Separator::Dotted).unwrap();
        assert_eq!(*s.get_grid(), [[0u8; 9]; 10]);
        assert_eq!(*s.get_bar(), [0u8; 9]);
    }
}

#[test]
fn write_bar_rejected_locally_unless_variable() {
    for kind in [Separator::Empty, Separator::Solid, Separator::Dotted] {
        let mut s = AppletInterface::new(1, kind).unwrap();
        s.set_bar([7u8; 9]);
        assert_eq!(s.bar_message().unwrap_err(), InterfaceError::SeparatorNotVariable);
    }
    let mut s = AppletInterface::new(1, Separator::Variable).unwrap();
    s.set_bar([7u8; 9]);
    assert!(s.bar_message().is_ok());
}

#[test]
fn set_bar_itself_never_checks_the_kind() {
    // The kind check is deferred to write time: setting the mirror on a
    // Solid-separator session succeeds and is visible through get_bar.
    let mut s = AppletInterface::new(2, Separator::Solid).unwrap();
    let bar = [255u8, 150, 50, 10, 0, 10, 50, 150, 255];
    s.set_bar(bar);
    assert_eq!(*s.get_bar(), bar);
}

#[test]
fn set_point_updates_one_cell_and_no_other() {
    for row in 0usize..10 {
        for col in 0usize..9 {
            let mut s = AppletInterface::new(1, Separator::Empty).unwrap();
            s.set_point(col, row, 200).unwrap();
            let grid = s.get_grid();
            for i in 0..10 {
                for j in 0..9 {
                    if i == row && j == col {
                        assert_eq!(grid[i][j], 200);
                    } else {
                        assert_eq!(grid[i][j], 0);
                    }
                }
            }
        }
    }
}

#[test]
fn set_point_boundaries_fail_with_distinct_errors() {
    let mut s = AppletInterface::new(1, Separator::Empty).unwrap();
    assert_eq!(s.set_point(0, 10, 1).unwrap_err(), InterfaceError::InvalidRowIndex);
    assert_eq!(s.set_point(9, 0, 1).unwrap_err(), InterfaceError::InvalidColumnIndex);
    // The row check comes first when both indices are out of range.
    assert_eq!(s.set_point(9, 10, 1).unwrap_err(), InterfaceError::InvalidRowIndex);
    // Nothing changed.
    assert_eq!(*s.get_grid(), [[0u8; 9]; 10]);
}

#[test]
fn status_zero_is_success() {
    assert!(decode_status(0).is_ok());
    assert!(decode_handshake(0).is_ok());
}

#[test]
fn tabled_status_bytes_map_to_their_variants() {
    assert_eq!(decode_status(10).unwrap_err(), InterfaceError::StreamReadFailed);
    assert_eq!(decode_status(20).unwrap_err(), InterfaceError::NotUtf8);
    assert_eq!(decode_status(21).unwrap_err(), InterfaceError::NotJson);
    assert_eq!(decode_status(30).unwrap_err(), InterfaceError::BadAppletNumber);
    assert_eq!(decode_status(31).unwrap_err(), InterfaceError::WrongApplet);
    assert_eq!(decode_status(32).unwrap_err(), InterfaceError::CommandFailed);
    assert_eq!(decode_status(33).unwrap_err(), InterfaceError::AppletExists);
    assert_eq!(decode_status(40).unwrap_err(), InterfaceError::BadSeparatorValue);
}

#[test]
fn untabled_status_bytes_are_unknown() {
    for b in [1u8, 2, 11, 22, 34, 35, 41, 99, 254, 255] {
        assert_eq!(decode_status(b).unwrap_err(), InterfaceError::UnknownStatus);
    }
}

#[test]
fn handshake_nonzero_is_refusal() {
    for b in [1u8, 10, 30, 33, 40, 255] {
        assert_eq!(decode_handshake(b).unwrap_err(), InterfaceError::BoardRefused);
    }
}
