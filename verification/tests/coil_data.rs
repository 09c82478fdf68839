use modbus_codec::pdu::coil::DataCoils;

#[test]
fn data_coils_from_coils() {
    let mut buf = [0_u8; 0x13];
    let coils = &[
        true, false, true, true, false, false, true, true, true, true, false, true, false, true,
        true, false, true, false, true,
    ];
    let data_coils = DataCoils::from_coils(coils, &mut buf);

    assert_eq!(data_coils, DataCoils::new(&[0xCD, 0x6B, 0x05], 0x13));

    let mut buf = [0_u8; 20];
    let coils = &[true, false];
    let data_coils = DataCoils::from_coils(coils, &mut buf);

    assert_eq!(data_coils, DataCoils::new(&[1], 2));
}

#[test]
fn coils_from_data_coils() {
    let mut coils_buf = [false; 0x13];
    let data_coils = DataCoils::new(&[0xCD, 0x6B, 0x05], 0x13);

    let coils = data_coils.copy_coils_to(&mut coils_buf);

    assert_eq!(
        coils,
        &[
            true, false, true, true, false, false, true, true, true, true, false, true, false,
            true, true, false, true, false, true
        ]
    );
    assert_eq!(
        coils_buf,
        [
            true, false, true, true, false, false, true, true, true, true, false, true, false,
            true, true, false, true, false, true
        ]
    );

    let mut coils_buf = [false; 0x8];
    let data_coils = DataCoils::new(&[0xfe], 0x8);

    let coils = data_coils.copy_coils_to(&mut coils_buf);

    assert_eq!(coils, &[false, true, true, true, true, true, true, true]);
    assert_eq!(coils_buf, [false, true, true, true, true, true, true, true]);
}

#[test]
fn vec_coils_from_data_coils() {
    let data_coils = DataCoils::new(&[255, 9, 2], 18);

    let coils = data_coils.to_vec();

    assert_eq!(
        coils,
        &[
            true, true, true, true, true, true, true, true, true, false, false, true, false,
            false, false, false, false, true,
        ]
    );
}

#[test]
fn empty_coils_pack_to_nothing() {
    let mut buf = [0_u8; 4];
    let coils: &[bool] = &[];
    let data_coils = DataCoils::from_coils(coils, &mut buf);
    assert_eq!(data_coils.quantity(), 0);
    assert_eq!(data_coils.data_len(), 0);
    assert_eq!(data_coils.data(), &[] as &[u8]);
}

#[test]
fn coil_accessors_report_the_binding() {
    let data_coils = DataCoils::new(&[0xcd, 0x01], 10);
    assert_eq!(data_coils.quantity(), 10);
    assert_eq!(data_coils.coils_len(), 10);
    assert_eq!(data_coils.data_len(), 2);
    assert_eq!(data_coils.data(), &[0xcd, 0x01]);
}

#[test]
fn packing_then_unpacking_returns_the_coils() {
    let coils = &[true, true, false, true, false, false, true, false, true, true];
    let mut buf = [0_u8; 2];
    let data_coils = DataCoils::from_coils(coils, &mut buf);
    let mut out = [false; 10];
    let unpacked = data_coils.copy_coils_to(&mut out);
    assert_eq!(unpacked, coils);
}
