use ina233::registers::{
    read_register, write_register, ClearEin, ClearFaults, IoutOcWarnLimit, MfrAdcConfig,
    MfrAlertMask, MfrCalibration, MfrDeviceConfig, MfrId, MfrModel, MfrReadVshunt, MfrRevision,
    PinOpWarnLimit, ReadEin, ReadIin, ReadVin, ReadableRegister, RestoreDefaultAll, StatusByte,
    StatusCml, StatusInput, StatusIout, StatusMfrSpecific, StatusWord, TiMfrId, TiMfrModel,
    TiMfrRevision, VinOvWarnLimit, VinUvWarnLimit, WritableRegister,
};
use ina233::text::{is_text, spells, text_of};
use ina233::units::{Current, Potential};

#[test]
fn manufacturer_id_skips_the_byte_count() {
    let register = MfrId::from([0x02, b'T', b'I']);
    assert_eq!(register.id, [b'T', b'I']);
    assert_eq!(register.id(), "TI");
}

#[test]
fn vendor_id_is_stored_last_byte_first() {
    let register = TiMfrId::from([b'I', b'T']);
    assert_eq!(register.id, [b'T', b'I']);
    assert_eq!(register.id(), "TI");
}

#[test]
fn model_skips_the_byte_count() {
    let register = MfrModel::from([0x06, b'I', b'N', b'A', b'2', b'3', b'3']);
    assert_eq!(register.model, [b'I', b'N', b'A', b'2', b'3', b'3']);
    assert_eq!(register.model(), "INA233");
}

#[test]
fn revision_skips_the_byte_count() {
    let register = MfrRevision::from([0x02, b'A', b'1']);
    assert_eq!(register.revision, [b'A', b'1']);
    assert_eq!(register.revision(), "A1");
}

#[test]
fn vendor_model_is_stored_last_byte_first() {
    let register = TiMfrModel::from([b'2', b'3']);
    assert_eq!(register.model, [b'3', b'2']);
    assert_eq!(register.model(), "32");
    assert_eq!(TiMfrModel::from([b'3', b'3']).model(), "33");
}

#[test]
fn vendor_revision_is_stored_last_byte_first() {
    let register = TiMfrRevision::from([b'1', b'A']);
    assert_eq!(register.revision, [b'A', b'1']);
    assert_eq!(register.revision(), "A1");
}

#[test]
fn identity_text_of_two_byte_characters() {
    // U+00E9 is encoded as 0xC3 0xA9.
    let register = MfrId::from([0x02, 0xC3, 0xA9]);
    assert_eq!(register.id(), "\u{e9}");
    assert_eq!(register.id().len(), 2);
    assert_eq!(register.id().chars().count(), 1);
}

#[test]
fn bytes_spell_a_text() {
    assert!(spells(&[b'T', b'I'], "TI"));
    assert!(spells(&[], ""));
    assert!(spells(&[0xC3, 0xA9], "\u{e9}"));
    assert!(!spells(&[b'T', b'I'], "IT"));
    assert!(!spells(&[b'T', b'I'], "T"));
    assert!(!spells(&[b'T'], "TI"));
    assert!(!spells(&[b'T', b'i'], "TI"));
    assert!(!spells(&[0xFF, 0xFF], "TI"));
    assert!(!spells(&[0x00, 0x00], "TI"));
}

#[test]
fn bytes_are_text_when_they_are_well_formed() {
    assert!(is_text(&[b'I', b'N', b'A', b'2', b'3', b'3']));
    assert!(is_text(&[]));
    assert!(is_text(&[0x00, 0x7F]));
    assert!(is_text(&[0xC3, 0xA9]));
    assert!(!is_text(&[0xFF, 0xFF]));
    assert!(!is_text(&[0x80]));
    assert!(!is_text(&[0xC3]));
    assert!(!is_text(&[0xC0, 0x80]));
    assert!(!is_text(&[0xED, 0xA0, 0x80]));
}

#[test]
fn well_formed_bytes_read_as_text() {
    assert_eq!(text_of(&[b'A', b'1']), "A1");
    assert_eq!(text_of(&[]), "");
    assert_eq!(text_of(&[0x33, 0x33]), "33");
}

#[test]
fn payload_free_commands_are_one_byte_frames() {
    let clear_faults: [u8; 1] = ClearFaults.into();
    let restore: [u8; 1] = RestoreDefaultAll.into();
    let clear_ein: [u8; 1] = ClearEin.into();
    assert_eq!(clear_faults, [0x03]);
    assert_eq!(restore, [0x12]);
    assert_eq!(clear_ein, [0xD6]);
    assert_eq!(<[u8; 1]>::from(ClearFaults), [0x03]);
    assert_eq!(<[u8; 1]>::from(RestoreDefaultAll), [0x12]);
    assert_eq!(<[u8; 1]>::from(ClearEin), [0xD6]);
}

#[test]
fn calibration_frame_is_command_then_little_endian_value() {
    assert_eq!(<[u8; 3]>::from(MfrCalibration { value: 8389 }), [0xD4, 0xC5, 0x20]);
    assert_eq!(<[u8; 3]>::from(MfrCalibration { value: 0 }), [0xD4, 0x00, 0x00]);
    assert_eq!(<[u8; 3]>::from(MfrCalibration { value: 0xFFFF }), [0xD4, 0xFF, 0xFF]);
    assert_eq!(<[u8; 3]>::from(MfrCalibration { value: 0x0100 }), [0xD4, 0x00, 0x01]);
}

#[test]
fn calibration_reads_as_little_endian_value() {
    assert_eq!(MfrCalibration::from([0xC5, 0x20]), MfrCalibration { value: 8389 });
    assert_eq!(MfrCalibration::from([0x00, 0x01]), MfrCalibration { value: 0x0100 });
    assert_eq!(MfrCalibration::from([0xFF, 0xFF]), MfrCalibration { value: 0xFFFF });
}

#[test]
fn calibration_written_reads_back() {
    let values: [u16; 6] = [0, 1, 0x00FF, 0x0100, 8389, 0xFFFF];
    for value in values {
        let frame: [u8; 3] = MfrCalibration { value }.into();
        assert_eq!(frame[0], 0xD4);
        assert_eq!(MfrCalibration::from([frame[1], frame[2]]).value, value);
    }
}

#[test]
fn calibration_defaults_to_zero() {
    assert_eq!(MfrCalibration::default(), MfrCalibration { value: 0 });
}

#[test]
fn warning_limits_are_twelve_bit_fields() {
    assert_eq!(IoutOcWarnLimit::from([0x34, 0x12]).value, 0x91A);
    assert_eq!(IoutOcWarnLimit::from([0xFE, 0x1F]).value, 0xFFF);
    assert_eq!(IoutOcWarnLimit::from([0x01, 0xE0]).value, 0);
    assert_eq!(VinOvWarnLimit::from([0x34, 0x12]).value, 0x91A);
    assert_eq!(VinOvWarnLimit::from([0xFF, 0xFF]).value, 0xFFF);
    assert_eq!(VinUvWarnLimit::from([0x34, 0x12]).value, 0x91A);
    assert_eq!(VinUvWarnLimit::from([0x02, 0x00]).value, 1);
    assert_eq!(PinOpWarnLimit::from([0x34, 0x12]).value, 0x123);
    assert_eq!(PinOpWarnLimit::from([0xF0, 0xFF]).value, 0xFFF);
    assert_eq!(PinOpWarnLimit::from([0x0F, 0x00]).value, 0);
}

#[test]
fn status_byte_flags() {
    assert_eq!(
        StatusByte::from([0x02]),
        StatusByte { cml: true, none_of_the_above: false }
    );
    assert_eq!(
        StatusByte::from([0x01]),
        StatusByte { cml: false, none_of_the_above: true }
    );
    assert_eq!(
        StatusByte::from([0xFC]),
        StatusByte { cml: false, none_of_the_above: false }
    );
}

#[test]
fn status_word_flags() {
    assert_eq!(
        StatusWord::from([0x02, 0x40]),
        StatusWord {
            iout_pout: true,
            input: false,
            mfr: false,
            cml: true,
            none_of_the_above: false
        }
    );
    assert_eq!(
        StatusWord::from([0x01, 0x30]),
        StatusWord {
            iout_pout: false,
            input: true,
            mfr: true,
            cml: false,
            none_of_the_above: true
        }
    );
    assert_eq!(
        StatusWord::from([0xFC, 0x8F]),
        StatusWord {
            iout_pout: false,
            input: false,
            mfr: false,
            cml: false,
            none_of_the_above: false
        }
    );
}

#[test]
fn status_iout_flag() {
    assert_eq!(StatusIout::from([0x20]), StatusIout { iout_oc_warn: true });
    assert_eq!(StatusIout::from([0xDF]), StatusIout { iout_oc_warn: false });
}

#[test]
fn status_input_flags() {
    assert_eq!(
        StatusInput::from([0x63]),
        StatusInput { vin_ov_warn: true, vin_uv_warn: true, iin_oc_warn: true, pin_op_warn: true }
    );
    assert_eq!(
        StatusInput::from([0x9C]),
        StatusInput {
            vin_ov_warn: false,
            vin_uv_warn: false,
            iin_oc_warn: false,
            pin_op_warn: false
        }
    );
    assert_eq!(
        StatusInput::from([0x40]),
        StatusInput {
            vin_ov_warn: true,
            vin_uv_warn: false,
            iin_oc_warn: false,
            pin_op_warn: false
        }
    );
    assert_eq!(
        StatusInput::from([0x01]),
        StatusInput {
            vin_ov_warn: false,
            vin_uv_warn: false,
            iin_oc_warn: false,
            pin_op_warn: true
        }
    );
}

#[test]
fn status_cml_flags() {
    assert_eq!(
        StatusCml::from([0x22]),
        StatusCml {
            invalid_or_unsupported_command_recieved: false,
            packet_error_check_failed: true,
            memory_fault_detected: true
        }
    );
    assert_eq!(
        StatusCml::from([0xDD]),
        StatusCml {
            invalid_or_unsupported_command_recieved: true,
            packet_error_check_failed: false,
            memory_fault_detected: false
        }
    );
    assert_eq!(
        StatusCml::from([0x80]),
        StatusCml {
            invalid_or_unsupported_command_recieved: true,
            packet_error_check_failed: false,
            memory_fault_detected: false
        }
    );
    assert_eq!(
        StatusCml::from([0x7F]),
        StatusCml {
            invalid_or_unsupported_command_recieved: false,
            packet_error_check_failed: true,
            memory_fault_detected: true
        }
    );
}

#[test]
fn status_cml_flags_follow_their_bits_for_every_reply() {
    let mut reply: u32 = 0;
    while reply <= 0xFF {
        let register = StatusCml::from([reply as u8]);
        assert_eq!(register.invalid_or_unsupported_command_recieved, reply & 0x80 != 0);
        assert_eq!(register.packet_error_check_failed, reply & 0x20 != 0);
        assert_eq!(register.memory_fault_detected, reply & 0x02 != 0);
        reply += 1;
    }
    assert_eq!(
        StatusCml::from([0xFF]),
        StatusCml {
            invalid_or_unsupported_command_recieved: true,
            packet_error_check_failed: true,
            memory_fault_detected: true
        }
    );
    assert_eq!(
        StatusCml::from([0x00]),
        StatusCml {
            invalid_or_unsupported_command_recieved: false,
            packet_error_check_failed: false,
            memory_fault_detected: false
        }
    );
}

#[test]
fn status_mfr_specific_flags() {
    assert_eq!(
        StatusMfrSpecific::from([0xA5]),
        StatusMfrSpecific {
            conversion_ready: true,
            arithmetic_overflow_flag: false,
            power_on_reset_event_detected: true,
            communications_or_memory_fault: false,
            input_overpower_warning: false,
            input_overcurrent_warning: true,
            input_overvoltage_warning: false,
            input_undervoltage_warning: true
        }
    );
    assert_eq!(
        StatusMfrSpecific::from([0x5A]),
        StatusMfrSpecific {
            conversion_ready: false,
            arithmetic_overflow_flag: true,
            power_on_reset_event_detected: false,
            communications_or_memory_fault: true,
            input_overpower_warning: true,
            input_overcurrent_warning: false,
            input_overvoltage_warning: true,
            input_undervoltage_warning: false
        }
    );
}

#[test]
fn alert_mask_flags() {
    assert_eq!(
        MfrAlertMask::from([0xF0]),
        MfrAlertMask {
            conversion_ready: true,
            adc_overflow_detected: true,
            por_event_detected: true,
            communications: true,
            in_op_warning: false,
            in_oc_warning: false,
            in_ov_warning: false,
            in_uv_warning: false
        }
    );
    assert_eq!(
        MfrAlertMask::from([0x0F]),
        MfrAlertMask {
            conversion_ready: false,
            adc_overflow_detected: false,
            por_event_detected: false,
            communications: false,
            in_op_warning: true,
            in_oc_warning: true,
            in_ov_warning: true,
            in_uv_warning: true
        }
    );
    assert_eq!(MfrAlertMask::from([0x84]).in_oc_warning, true);
    assert_eq!(MfrAlertMask::from([0x84]).conversion_ready, true);
    assert_eq!(MfrAlertMask::from([0x84]).in_ov_warning, false);
}

#[test]
fn device_config_fields() {
    assert_eq!(
        MfrDeviceConfig::from([0x02]),
        MfrDeviceConfig {
            ein_status: false,
            ein_accum: 0,
            i2c_filt: false,
            read_ein_autoclear: false,
            alert_behavior: true,
            apol: false
        }
    );
    assert_eq!(
        MfrDeviceConfig::from([0xB5]),
        MfrDeviceConfig {
            ein_status: true,
            ein_accum: 3,
            i2c_filt: false,
            read_ein_autoclear: true,
            alert_behavior: false,
            apol: true
        }
    );
    assert_eq!(MfrDeviceConfig::from([0x10]).ein_accum, 1);
    assert_eq!(MfrDeviceConfig::from([0x20]).ein_accum, 2);
    assert_eq!(MfrDeviceConfig::from([0x48]).ein_accum, 0);
    assert_eq!(MfrDeviceConfig::from([0x48]).i2c_filt, true);
}

#[test]
fn adc_config_fields() {
    assert_eq!(
        MfrAdcConfig::from([0x27, 0x41]),
        MfrAdcConfig { avg: 0, vbusct: 4, vshct: 4, mode: 7 }
    );
    assert_eq!(
        MfrAdcConfig::from([0xFF, 0x0F]),
        MfrAdcConfig { avg: 7, vbusct: 7, vshct: 7, mode: 7 }
    );
    assert_eq!(
        MfrAdcConfig::from([0x00, 0xF0]),
        MfrAdcConfig { avg: 0, vbusct: 0, vshct: 0, mode: 0 }
    );
    assert_eq!(
        MfrAdcConfig::from([0x4A, 0x06]),
        MfrAdcConfig { avg: 3, vbusct: 1, vshct: 1, mode: 2 }
    );
}

#[test]
fn energy_accumulator_fields() {
    assert_eq!(
        ReadEin::from([0x06, 0x34, 0x12, 0x09, 0x01, 0x02, 0x03]),
        ReadEin {
            sample_count: 0x030201,
            power_accumulator_rollover_count: 9,
            power_accumulator: 0x1234
        }
    );
    assert_eq!(
        ReadEin::from([0x00, 0xFF, 0xFF, 0xFF, 0xFF, 0xFF, 0xFF]),
        ReadEin {
            sample_count: 0xFFFFFF,
            power_accumulator_rollover_count: 0xFF,
            power_accumulator: 0xFFFF
        }
    );
    assert_eq!(
        ReadEin::from([0xFF, 0, 0, 0, 0, 0, 0]),
        ReadEin { sample_count: 0, power_accumulator_rollover_count: 0, power_accumulator: 0 }
    );
}

#[test]
fn bus_voltage_reading() {
    let register = ReadVin::from([0x10, 0x27]);
    assert_eq!(register.value, 10_000);
    assert_eq!(register.voltage(), Potential { nanovolts: 12_500_000_000 });
    assert_eq!(ReadVin::from([0xFF, 0xFF]).value, 0xFFFF);
    assert_eq!(ReadVin::from([0xFF, 0xFF]).voltage(), Potential { nanovolts: 81_918_750_000 });
    assert_eq!(ReadVin::from([0x00, 0x80]).value, 0x8000);
    assert_eq!(ReadVin::from([0x00, 0x00]).voltage(), Potential { nanovolts: 0 });
}

#[test]
fn current_reading_is_signed() {
    let lsb = Current { picoamperes: 305_175_781 };
    assert_eq!(ReadIin::from([100, 0]).value, 100);
    assert_eq!(ReadIin::from([100, 0]).current(lsb), Current { picoamperes: 30_517_578_100 });
    assert_eq!(ReadIin::from([0xFF, 0xFF]).value, -1);
    assert_eq!(ReadIin::from([0xFF, 0xFF]).current(lsb), Current { picoamperes: -305_175_781 });
    assert_eq!(ReadIin::from([0x00, 0x80]).value, -32_768);
    assert_eq!(ReadIin::from([0xFF, 0x7F]).value, 32_767);
    assert_eq!(ReadIin::from([0x00, 0x00]).current(lsb), Current { picoamperes: 0 });
}

#[test]
fn shunt_voltage_reading_is_signed() {
    assert_eq!(MfrReadVshunt::from([0xFE, 0xFF]).value, -2);
    assert_eq!(MfrReadVshunt::from([0x02, 0x00]).value, 2);
    assert_eq!(MfrReadVshunt::from([0x00, 0x80]).value, -32_768);
    assert_eq!(MfrReadVshunt::from([0xFF, 0x7F]).value, 32_767);
}

#[test]
fn command_addresses_of_readable_registers() {
    assert_eq!(<IoutOcWarnLimit as ReadableRegister<2>>::ADDRESS, 0x4A);
    assert_eq!(<VinOvWarnLimit as ReadableRegister<2>>::ADDRESS, 0x57);
    assert_eq!(<VinUvWarnLimit as ReadableRegister<2>>::ADDRESS, 0x58);
    assert_eq!(<PinOpWarnLimit as ReadableRegister<2>>::ADDRESS, 0x6B);
    assert_eq!(<StatusByte as ReadableRegister<1>>::ADDRESS, 0x78);
    assert_eq!(<StatusWord as ReadableRegister<2>>::ADDRESS, 0x79);
    assert_eq!(<StatusIout as ReadableRegister<1>>::ADDRESS, 0x7B);
    assert_eq!(<StatusInput as ReadableRegister<1>>::ADDRESS, 0x7C);
    assert_eq!(<StatusCml as ReadableRegister<1>>::ADDRESS, 0x7E);
    assert_eq!(<StatusMfrSpecific as ReadableRegister<1>>::ADDRESS, 0x80);
    assert_eq!(<ReadEin as ReadableRegister<7>>::ADDRESS, 0x86);
    assert_eq!(<ReadVin as ReadableRegister<2>>::ADDRESS, 0x88);
    assert_eq!(<ReadIin as ReadableRegister<2>>::ADDRESS, 0x89);
    assert_eq!(<MfrId as ReadableRegister<3>>::ADDRESS, 0x99);
    assert_eq!(<MfrModel as ReadableRegister<7>>::ADDRESS, 0x9A);
    assert_eq!(<MfrRevision as ReadableRegister<3>>::ADDRESS, 0x9B);
    assert_eq!(<MfrAdcConfig as ReadableRegister<2>>::ADDRESS, 0xD0);
    assert_eq!(<MfrReadVshunt as ReadableRegister<2>>::ADDRESS, 0xD1);
    assert_eq!(<MfrAlertMask as ReadableRegister<1>>::ADDRESS, 0xD2);
    assert_eq!(<MfrCalibration as ReadableRegister<2>>::ADDRESS, 0xD4);
    assert_eq!(<MfrDeviceConfig as ReadableRegister<1>>::ADDRESS, 0xD5);
    assert_eq!(<TiMfrId as ReadableRegister<2>>::ADDRESS, 0xE0);
    assert_eq!(<TiMfrModel as ReadableRegister<2>>::ADDRESS, 0xE1);
    assert_eq!(<TiMfrRevision as ReadableRegister<2>>::ADDRESS, 0xE2);
}

#[test]
fn command_addresses_of_writable_registers() {
    assert_eq!(<ClearFaults as WritableRegister<1>>::ADDRESS, 0x03);
    assert_eq!(<RestoreDefaultAll as WritableRegister<1>>::ADDRESS, 0x12);
    assert_eq!(<MfrCalibration as WritableRegister<3>>::ADDRESS, 0xD4);
    assert_eq!(<ClearEin as WritableRegister<1>>::ADDRESS, 0xD6);
}

#[test]
fn command_address_constants() {
    assert_eq!(ina233::registers::CLEAR_FAULTS, 0x03);
    assert_eq!(ina233::registers::RESTORE_DEFAULT_ALL, 0x12);
    assert_eq!(ina233::registers::CAPABILITY, 0x19);
    assert_eq!(ina233::registers::STATUS_BYTE, 0x78);
    assert_eq!(ina233::registers::STATUS_WORD, 0x79);
    assert_eq!(ina233::registers::STATUS_IOUT, 0x7B);
    assert_eq!(ina233::registers::STATUS_INPUT, 0x7C);
    assert_eq!(ina233::registers::STATUS_CML, 0x7E);
    assert_eq!(ina233::registers::STATUS_MFR_SPECIFIC, 0x80);
    assert_eq!(ina233::registers::READ_EIN, 0x86);
    assert_eq!(ina233::registers::READ_VIN, 0x88);
    assert_eq!(ina233::registers::READ_IIN, 0x89);
    assert_eq!(ina233::registers::READ_VOUT, 0x8B);
    assert_eq!(ina233::registers::READ_IOUT, 0x8C);
    assert_eq!(ina233::registers::READ_POUT, 0x96);
    assert_eq!(ina233::registers::READ_PIN, 0x97);
    assert_eq!(ina233::registers::MFR_ID, 0x99);
    assert_eq!(ina233::registers::MFR_MODEL, 0x9A);
    assert_eq!(ina233::registers::MFR_REVISION, 0x9B);
    assert_eq!(ina233::registers::MFR_ADC_CONFIG, 0xD0);
    assert_eq!(ina233::registers::MFR_READ_VSHUNT, 0xD1);
    assert_eq!(ina233::registers::MFR_ALERT_MASK, 0xD2);
    assert_eq!(ina233::registers::MFR_CALIBRATION, 0xD4);
    assert_eq!(ina233::registers::MFR_DEVICE_CONFIG, 0xD5);
    assert_eq!(ina233::registers::CLEAR_EIN, 0xD6);
    assert_eq!(ina233::registers::TI_MFR_ID, 0xE0);
    assert_eq!(ina233::registers::TI_MFR_MODEL, 0xE1);
    assert_eq!(ina233::registers::TI_MFR_REVISION, 0xE2);
}

#[test]
fn register_is_read_from_a_reply() {
    let read: Result<ReadVin, u8> = read_register::<ReadVin, 2, u8>(Ok([0x10, 0x27]));
    assert_eq!(read, Ok(ReadVin { value: 10_000 }));
    let id: Result<MfrId, u8> = read_register::<MfrId, 3, u8>(Ok([0x02, b'T', b'I']));
    assert_eq!(id, Ok(MfrId { id: [b'T', b'I'] }));
}

#[test]
fn bus_error_is_passed_on_by_a_read() {
    let read: Result<ReadVin, u8> = read_register::<ReadVin, 2, u8>(Err(5));
    assert_eq!(read, Err(5));
}

#[test]
fn register_is_written_as_its_frame() {
    assert_eq!(
        write_register::<MfrCalibration, 3>(MfrCalibration { value: 8389 }),
        [0xD4, 0xC5, 0x20]
    );
    assert_eq!(write_register::<RestoreDefaultAll, 1>(RestoreDefaultAll), [0x12]);
    assert_eq!(write_register::<ClearFaults, 1>(ClearFaults), [0x03]);
    assert_eq!(write_register::<ClearEin, 1>(ClearEin), [0xD6]);
}
