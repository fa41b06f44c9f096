use sportident::card::card_type_of;
use sportident::session::{
    card_data_from_response, inserted_card, punch_from_event, system_configuration_from_response,
    BaudProbe, ProbeAction, LOW_SPEED_BAUD_RATE,
};
use sportident::{
    crc, Beep, BlockCache, CalendarDate, Card, CardBlocks, CardOwnerData, CardPunch, CardReadout,
    CardRemoved, CardType, Codec, Command, Commands, DayOfWeek, DecoderError, EncoderError, Error,
    FromCardBlocks, GetSystemConfiguration, Model, Punch, ReadCardData, ReadCardDataResponse,
    Response, Responses, SetMasterSlave, SetMasterSlaveResponse, StartOrFinishPunch, StationMode,
    StationProgram, SubSecondPunch, SystemConfiguration, TimeOfDay, WeekCounter, BLOCK_SIZE,
};

/// A response frame as the station sends it: two station-code bytes lead the
/// payload.
fn station_frame(cmd: u8, data: &[u8]) -> Vec<u8> {
    let mut body = vec![cmd, (data.len() + 2) as u8, 0x00, 0x01];
    body.extend_from_slice(data);
    let sum = crc(&body);
    let mut frame = vec![0xFF, 0x02];
    frame.extend_from_slice(&body);
    frame.extend_from_slice(&[(sum >> 8) as u8, (sum & 0xFF) as u8, 0x03]);
    frame
}

#[test]
fn crc_of_set_master_frame() {
    assert_eq!(crc(&[0xF0, 0x01, 0x4D]), 0x6D0A);
}

#[test]
fn crc_of_short_inputs() {
    assert_eq!(crc(&[]), 0);
    assert_eq!(crc(&[0x00]), 0);
    assert_eq!(crc(&[0x12]), 0);
    assert_eq!(crc(&[0x12, 0x34]), 0x1234);
}

#[test]
fn crc_of_longer_inputs() {
    assert_eq!(crc(&[0x83, 0x02, 0x00, 0x80]), 0xBF17);
    assert_eq!(crc(&[0xEF, 0x01, 0x00]), 0xE209);
    assert_eq!(crc(&[0x06, 0x00]), 0x0600);
    assert_eq!(crc(&[0xF0, 0x03, 0x00, 0x01, 0x4D]), 0x0D11);
}

#[test]
fn encode_set_master() {
    let mut codec = Codec::new();
    let mut out = Vec::new();
    codec
        .encode(Commands::SetMasterSlave(SetMasterSlave::Master), &mut out)
        .unwrap();
    assert_eq!(out, vec![0xFF, 0x02, 0xF0, 0x01, 0x4D, 0x6D, 0x0A, 0x03]);
}

#[test]
fn encode_appends_each_command() {
    let mut codec = Codec::default();
    let mut out = vec![0xAA];
    codec.encode(Commands::Beep(Beep), &mut out).unwrap();
    codec
        .encode(Commands::GetSystemConfiguration(GetSystemConfiguration), &mut out)
        .unwrap();
    codec
        .encode(Commands::ReadCardData(ReadCardData::new(5)), &mut out)
        .unwrap();
    let sum = crc(&[0xEF, 0x01, 0x05]);
    assert_eq!(
        out,
        vec![
            0xAA, 0xFF, 0x02, 0x06, 0x00, 0x06, 0x00, 0x03, 0xFF, 0x02, 0x83, 0x02, 0x00, 0x80,
            0xBF, 0x17, 0x03, 0xFF, 0x02, 0xEF, 0x01, 0x05, (sum >> 8) as u8, (sum & 0xFF) as u8,
            0x03
        ]
    );
}

#[test]
fn command_encode_bytes() {
    assert_eq!(SetMasterSlave::Slave.encode().unwrap(), vec![0xF0, 0x01, 0x53]);
    assert_eq!(Beep.encode().unwrap(), vec![0x06, 0x00]);
    assert_eq!(ReadCardData::new(7).command_parameters(), vec![7]);
    assert_eq!(ReadCardData::new(7).magic(), 0xEF);
    assert_eq!(GetSystemConfiguration.encode().unwrap(), vec![0x83, 0x02, 0x00, 0x80]);
    let _ = EncoderError::CommandParametersTooLong(255, 256);
}

#[test]
fn frame_round_trip() {
    let payload = [0x00, 0x01, 0x10, 0x20, 0x30];
    let mut body = vec![0xAB, payload.len() as u8];
    body.extend_from_slice(&payload);
    let sum = crc(&body);
    let mut buffer = vec![0xFF, 0x02];
    buffer.extend_from_slice(&body);
    buffer.extend_from_slice(&[(sum >> 8) as u8, (sum & 0xFF) as u8, 0x03, 0x55]);
    let mut codec = Codec::new();
    let frame = codec.decode_frame(&mut buffer).unwrap();
    assert_eq!(frame, Some((0xAB, vec![0x10, 0x20, 0x30])));
    assert_eq!(buffer, vec![0x55]);
}

#[test]
fn decode_set_master_ack() {
    let mut buffer = station_frame(0xF0, &[0x4D]);
    let mut codec = Codec::new();
    let r = codec.decode(&mut buffer).unwrap();
    assert_eq!(r, Some(Responses::SetMasterSlaveResponse(SetMasterSlaveResponse)));
    assert!(buffer.is_empty());
}

#[test]
fn decode_partial_frame_waits() {
    let full = station_frame(0xE8, &[0x00, 0x1F, 0x9B, 0x2A]);
    let mut codec = Codec::new();
    let mut buffer = full[..5].to_vec();
    assert_eq!(codec.decode(&mut buffer), Ok(None));
    assert_eq!(buffer, full[2..5].to_vec());
    buffer.extend_from_slice(&full[5..]);
    let r = codec.decode(&mut buffer).unwrap();
    assert_eq!(
        r,
        Some(Responses::CardInserted(Card { card_type: CardType::Si8, number: 2_071_338 }))
    );
    assert!(buffer.is_empty());
}

#[test]
fn decode_only_wakeups() {
    let mut codec = Codec::new();
    let mut buffer = vec![0xFF, 0xFF, 0xFF];
    assert_eq!(codec.decode(&mut buffer), Ok(None));
    assert!(buffer.is_empty());
}

#[test]
fn mutated_checksum_is_refused_and_recovered() {
    let mut bad = station_frame(0xE8, &[0x00, 0x1F, 0x9B, 0x2A]);
    let at = bad.len() - 2;
    bad[at] ^= 0x01;
    let good = station_frame(0xE7, &[0x00, 0x1F, 0x9B, 0x2A]);
    let mut buffer = bad.clone();
    buffer.extend_from_slice(&good);
    let mut codec = Codec::new();
    match codec.decode(&mut buffer) {
        Err(DecoderError::InvalidChecksum(computed, received)) => {
            assert_eq!(computed, 0x5F35);
            assert_eq!(received, 0x5F34);
        }
        other => panic!("unexpected {:?}", other),
    }
    assert_eq!(buffer, good);
    assert_eq!(codec.decode(&mut buffer), Ok(Some(Responses::CardRemoved(CardRemoved))));
}

#[test]
fn negative_acknowledgement() {
    let mut codec = Codec::new();
    let mut buffer = vec![0xFF, 0x15, 0x02];
    assert_eq!(codec.decode(&mut buffer), Err(DecoderError::InvalidCommandSent));
    assert_eq!(buffer, vec![0x02]);
}

#[test]
fn invalid_start_byte() {
    let mut codec = Codec::new();
    let mut buffer = vec![0x07, 0xFF];
    assert_eq!(codec.decode(&mut buffer), Err(DecoderError::InvalidStartByte(0x07)));
    assert_eq!(buffer, vec![0xFF]);
}

#[test]
fn invalid_length() {
    let mut codec = Codec::new();
    let mut buffer = vec![0x02, 0xE8, 0x01, 0x00];
    assert_eq!(codec.decode(&mut buffer), Err(DecoderError::InvalidLength(1)));
    assert_eq!(buffer, vec![0x00]);
}

#[test]
fn invalid_end_byte() {
    let mut frame = station_frame(0xF0, &[0x4D]);
    let last = frame.len() - 1;
    frame[last] = 0x04;
    let mut codec = Codec::new();
    assert_eq!(codec.decode(&mut frame), Err(DecoderError::InvalidEndByte(0x04)));
    assert!(frame.is_empty());
}

#[test]
fn invalid_command() {
    let mut frame = station_frame(0x42, &[0x01]);
    let mut codec = Codec::new();
    assert_eq!(codec.decode(&mut frame), Err(DecoderError::InvalidCommand(0x42)));
}

#[test]
fn card_inserted_out_of_range() {
    let mut frame = station_frame(0xE8, &[0x00, 0x35, 0x67, 0xE0]);
    let mut codec = Codec::new();
    assert_eq!(
        codec.decode(&mut frame),
        Err(DecoderError::InvalidCardNumber(3_500_000))
    );
    assert!(matches!(Card::new(3_500_000), Err(DecoderError::InvalidCardNumber(3_500_000))));
}

#[test]
fn card_inserted_length() {
    assert_eq!(
        Card::decode(&[0x00, 0x1F, 0x9B]),
        Err(DecoderError::InvalidCardInsertedLength(4, 3))
    );
}

#[test]
fn card_type_ranges() {
    let cases = [
        (1_000_000, Some(CardType::Si9)),
        (1_999_999, Some(CardType::Si9)),
        (2_000_000, Some(CardType::Si8)),
        (2_999_999, Some(CardType::Si8)),
        (4_000_000, Some(CardType::PunchCard)),
        (4_999_999, Some(CardType::PunchCard)),
        (7_000_000, Some(CardType::Si10)),
        (7_999_999, Some(CardType::Si10)),
        (8_000_000, Some(CardType::Siac)),
        (8_999_999, Some(CardType::Siac)),
        (9_000_000, Some(CardType::Si11)),
        (9_999_999, Some(CardType::Si11)),
        (0, None),
        (999_999, None),
        (3_000_000, None),
        (5_000_000, None),
        (6_999_999, None),
        (10_000_000, None),
    ];
    for (number, expected) in cases {
        match expected {
            Some(t) => assert_eq!(CardType::new(number), Ok(t)),
            None => assert_eq!(CardType::new(number), Err(DecoderError::InvalidCardNumber(number))),
        }
    }
    let _ = card_type_of;
}

#[test]
fn absent_punch_slot() {
    for b0 in [0x00u8, 0x1B, 0x8B, 0xFF] {
        assert_eq!(Punch::decode_punch(CardType::Si8, [b0, 0x42, 0xEE, 0xEE]), Ok(None));
        assert_eq!(SubSecondPunch::decode_punch(CardType::Si8, [b0, 0x42, 0xEE, 0xEE]), Ok(None));
        assert_eq!(StartOrFinishPunch::decode_punch(CardType::Si8, [b0, 0x42, 0xEE, 0xEE]), Ok(None));
    }
}

#[test]
fn punch_time_out_of_range() {
    assert_eq!(
        Punch::decode_punch(CardType::Si8, [0x00, 0x01, 0xA8, 0xC0]),
        Err(DecoderError::InvalidPunchTime)
    );
}

#[test]
fn punch_afternoon_bit() {
    let morning = Punch::decode_punch(CardType::Si8, [0x1A, 0x01, 0x4E, 0x7A]).unwrap().unwrap();
    let afternoon = Punch::decode_punch(CardType::Si8, [0x1B, 0x01, 0x4E, 0x7A]).unwrap().unwrap();
    assert_eq!(morning.time, TimeOfDay::from_hms(5, 34, 50).unwrap());
    assert_eq!(afternoon.time.millis, morning.time.millis + 43_200_000);
    assert_eq!(afternoon.day_of_week, DayOfWeek::Friday);
    assert_eq!(afternoon.week_counter, WeekCounter::Second);
    let last = Punch::decode_punch(CardType::Si8, [0x01, 0x01, 0xA8, 0xBF]).unwrap().unwrap();
    assert_eq!(last.time, TimeOfDay::from_hms(23, 59, 59).unwrap());
}

#[test]
fn punch_code_high_bits() {
    let p = Punch::decode_punch(CardType::Si10, [0xC2, 0x05, 0x00, 0x10]).unwrap().unwrap();
    assert_eq!(p.code, 0x305);
    assert_eq!(p.day_of_week, DayOfWeek::Monday);
}

#[test]
fn weekday_field_zero_is_sunday() {
    let p = Punch::decode_punch(CardType::Si10, [0x00, 0x05, 0x00, 0x10]).unwrap().unwrap();
    assert_eq!(p.day_of_week, DayOfWeek::Sunday);
    assert_eq!(p.week_counter, WeekCounter::First);
    let q = Punch::decode_punch(CardType::Si10, [0x3E, 0x05, 0x00, 0x10]).unwrap().unwrap();
    assert_eq!(q.day_of_week, DayOfWeek::Sunday);
    assert_eq!(q.week_counter, WeekCounter::Fourth);
}

#[test]
fn sub_second_start() {
    let p = StartOrFinishPunch::decode_punch(CardType::PunchCard, [0x8B, 0x8E, 0x5A, 0xE2]).unwrap();
    assert_eq!(
        p,
        Some(StartOrFinishPunch::SubSecond(SubSecondPunch {
            time: TimeOfDay::from_hms_milli(18, 27, 46, 556).unwrap(),
            day_of_week: DayOfWeek::Friday,
            week_counter: WeekCounter::First,
        }))
    );
    let t = TimeOfDay::from_hms_milli(18, 27, 46, 556).unwrap();
    assert_eq!((t.hour(), t.minute(), t.second(), t.millisecond()), (18, 27, 46, 556));
}

#[test]
fn sub_second_wraps_at_midnight() {
    let p = SubSecondPunch::decode_punch(CardType::Si8, [0x01, 0xFF, 0xA8, 0xBF]).unwrap().unwrap();
    assert_eq!(p.time.millis, 0);
}

#[test]
fn card_punch_event() {
    let data = [0x00, 0x1F, 0x9B, 0x2A, 0x8B, 0x5A, 0xE2, 0x8E, 0x00, 0x00, 0x00];
    let r = CardPunch::decode(&data).unwrap();
    assert_eq!(r.card, Card { card_type: CardType::Si8, number: 2_071_338 });
    assert_eq!(r.punch.time, TimeOfDay::from_hms_milli(18, 27, 46, 556).unwrap());
    assert_eq!(
        CardPunch::decode(&data[..7]),
        Err(DecoderError::InvalidCardPunchLength(8, 7))
    );
    let absent = [0x00, 0x1F, 0x9B, 0x2A, 0x8B, 0xEE, 0xEE, 0x8E];
    assert_eq!(CardPunch::decode(&absent), Err(DecoderError::InvalidPunchTime));
}

#[test]
fn card_data_block_size() {
    assert_eq!(ReadCardDataResponse::decode(&[]), Err(DecoderError::InvalidBlockSize(128, 0)));
    assert_eq!(
        ReadCardDataResponse::decode(&[0x00; 128]),
        Err(DecoderError::InvalidBlockSize(128, 127))
    );
    let mut data = vec![0x03];
    data.extend((0..128).map(|i| i as u8));
    let block = ReadCardDataResponse::decode(&data).unwrap();
    assert_eq!(block.0[0], 0);
    assert_eq!(block.0[127], 127);
}

fn configuration_payload() -> Vec<u8> {
    let mut d = vec![0u8; 129];
    let m = |k: usize| k + 1;
    d[m(0)] = 0x78;
    d[m(1)] = 0x56;
    d[m(2)] = 0x34;
    d[m(3)] = 0x12;
    d[m(4)] = 0x05;
    d[m(5)] = b'6';
    d[m(6)] = b'5';
    d[m(7)] = b'6';
    d[m(8)] = 20;
    d[m(9)] = 2;
    d[m(10)] = 29;
    d[m(11)] = 0x91;
    d[m(12)] = 0x98;
    d[m(13)] = 128;
    d[m(21)] = 23;
    d[m(22)] = 12;
    d[m(23)] = 31;
    d[m(25)] = 0x04;
    d[m(26)] = 0xB0;
    d[m(52)] = 1;
    d[m(53)] = 0x01;
    d[m(54)] = 0x02;
    d[m(55)] = 0x03;
    d[m(80)] = 0xCC;
    d[m(81)] = 0xCD;
    d[m(112)] = 0x20;
    d[m(113)] = 0x05;
    d[m(114)] = 0x0A;
    d[m(115)] = 0xC5;
    d[m(116)] = 0x01;
    d[m(117)] = 24;
    d[m(118)] = 6;
    d[m(119)] = 15;
    d[m(126)] = 30;
    d
}

#[test]
fn system_configuration_fields() {
    let c = SystemConfiguration::decode(&configuration_payload()).unwrap();
    assert_eq!(c.serial_number, 0x1234_5678);
    assert_eq!(c.firmware, [b'6', b'5', b'6']);
    assert_eq!(c.build_date, CalendarDate { year: 2020, month: 2, day: 29 });
    assert_eq!(c.model, Model::BSM8SRR);
    assert_eq!(c.mem_kilobytes, 128);
    assert_eq!(c.battery_date, CalendarDate { year: 2023, month: 12, day: 31 });
    assert_eq!(c.battery_capacity_milliampere_hour, 1200);
    assert_eq!(c.used_battery_capacity, 0x010203);
    assert_eq!(c.battery_voltage, 0xCCCD);
    assert_eq!(c.station_program, StationProgram::Training);
    assert_eq!(c.mode, StationMode::Readout);
    assert_eq!(c.station_code, 0x0AC0);
    assert_eq!(c.punch_feedback.bits, 0xC5);
    assert!(c.protocol_configuration.is_extended_protocol());
    assert!(!c.protocol_configuration.is_auto_send());
    assert_eq!(c.wakeup_date, CalendarDate { year: 2024, month: 6, day: 15 });
    assert_eq!(c.active_duration_minutes, 30);
    assert_eq!(c.check_card_polling(), Ok(()));
    assert_eq!(c.check_punch_polling(), Err(Error::NotAutoSendMode));
}

#[test]
fn system_configuration_faults() {
    assert_eq!(
        SystemConfiguration::decode(&[0u8; 128]),
        Err(DecoderError::InvalidSystemConfiguration(129, 128))
    );
    let mut d = configuration_payload();
    d[11] = 30;
    assert_eq!(SystemConfiguration::decode(&d), Err(DecoderError::InvalidDate(2020, 2, 30)));
    let mut d = configuration_payload();
    d[13] = 0x00;
    assert_eq!(SystemConfiguration::decode(&d), Err(DecoderError::UnknownModelId(0x9100)));
    let mut d = configuration_payload();
    d[53] = 2;
    assert_eq!(SystemConfiguration::decode(&d), Err(DecoderError::UnknownSRRChannel(2)));
    let mut d = configuration_payload();
    d[114] = 0x08;
    assert_eq!(SystemConfiguration::decode(&d), Err(DecoderError::UnknownStationMode(0x08)));
    let mut d = configuration_payload();
    d[119] = 0;
    assert_eq!(SystemConfiguration::decode(&d), Err(DecoderError::InvalidDate(2024, 0, 15)));
}

#[test]
fn calendar_dates() {
    assert!(CalendarDate::from_ymd(2024, 2, 29).is_some());
    assert!(CalendarDate::from_ymd(2023, 2, 29).is_none());
    assert!(CalendarDate::from_ymd(2000, 2, 29).is_some());
    assert!(CalendarDate::from_ymd(2100, 2, 29).is_none());
    assert!(CalendarDate::from_ymd(2023, 4, 31).is_none());
    assert!(CalendarDate::from_ymd(2023, 13, 1).is_none());
}

#[test]
fn polling_checks() {
    let mut c = SystemConfiguration::decode(&configuration_payload()).unwrap();
    c.protocol_configuration.bits = 0x02;
    assert_eq!(c.check_card_polling(), Err(Error::NotExtendedProtocolMode));
    assert_eq!(c.check_punch_polling(), Err(Error::NotExtendedProtocolMode));
    c.protocol_configuration.bits = 0x03;
    assert_eq!(c.check_punch_polling(), Ok(()));
    c.mode = StationMode::Control;
    assert_eq!(c.check_card_polling(), Err(Error::NotReadoutMode));
}

#[test]
fn owner_parts() {
    assert_eq!(
        CardOwnerData::parse_parts(2, b"Anna;Berg;x;y"),
        Ok(vec!["Anna".to_string(), "Berg".to_string()])
    );
    assert_eq!(
        CardOwnerData::parse_parts(3, b"a;b"),
        Err(DecoderError::InvalidOwnerData)
    );
    assert_eq!(
        CardOwnerData::parse_parts(2, b"a;b"),
        Ok(vec!["a".to_string(), "b".to_string()])
    );
    assert_eq!(
        CardOwnerData::parse_parts(2, &[0x61, 0x3B, 0xFF, 0x3B]),
        Err(DecoderError::InvalidOwnerData)
    );
    assert_eq!(
        CardOwnerData::parse_parts(1, "Jürgen;".as_bytes()),
        Ok(vec!["Jürgen".to_string()])
    );
}

#[test]
fn owner_data_all_separators() {
    let mut image = vec![0u8; 256];
    for b in image[32..160].iter_mut() {
        *b = b';';
    }
    let owner = CardOwnerData::decode(&image, CardType::Si10).unwrap();
    assert_eq!(owner.first_name, "");
    assert_eq!(owner.last_name, "");
    assert_eq!(owner.gender, None);
    assert_eq!(owner.country, None);
    assert_eq!(
        CardOwnerData::decode(&image[..100], CardType::Si10),
        Err(DecoderError::InvalidReadoutDataLength)
    );
}

fn sample_image() -> Vec<u8> {
    let mut image = vec![0u8; 128 * 8];
    image[32..46].copy_from_slice(b"Ada;Lovelace;F");
    for b in image[46..160].iter_mut() {
        *b = b';';
    }
    let readout = &mut image[3 * 128..];
    readout[8..12].copy_from_slice(&[0x1B, 0x01, 0x4E, 0x7A]);
    readout[12..16].copy_from_slice(&[0xEE, 0xEE, 0xEE, 0xEE]);
    readout[16..20].copy_from_slice(&[0x1B, 0x01, 0x4E, 0x80]);
    readout[22] = 3;
    readout[25..28].copy_from_slice(&[0x7A, 0x12, 0x01]);
    readout[128..132].copy_from_slice(&[0x1B, 0x1F, 0x4E, 0x7B]);
    readout[132..136].copy_from_slice(&[0x1B, 0x20, 0xEE, 0xEE]);
    readout[136..140].copy_from_slice(&[0x1B, 0x21, 0x4E, 0x7C]);
    image
}

#[test]
fn readout_and_owner_together() {
    let mut image = sample_image();
    let (readout, owner) =
        <(CardReadout, CardOwnerData)>::from_card_blocks(&mut image, CardType::Si10).unwrap();
    assert_eq!(readout.card_number, 0x7A1201);
    assert_eq!(readout.start, None);
    assert_eq!(readout.punches.len(), 2);
    assert_eq!(readout.punches[0].code, 0x1F);
    assert_eq!(readout.punches[1].code, 0x21);
    assert_eq!(owner.first_name, "Ada");
    assert_eq!(owner.last_name, "Lovelace");
    assert_eq!(owner.gender, Some("F".to_string()));
    assert_eq!(owner.club, None);
    let again = CardReadout::from_card_blocks(&mut image, CardType::Si10).unwrap();
    assert_eq!(again, readout);
    assert_eq!(
        <(CardReadout, CardOwnerData)>::block_indices(CardType::Si10),
        vec![3, 4, 5, 6, 7, 0, 1]
    );
    assert_eq!(CardReadout::block_indices(CardType::Si9), vec![0, 1]);
}

#[test]
fn readout_missing_blocks() {
    let mut image = sample_image();
    image.truncate(128 * 6);
    assert_eq!(
        CardReadout::from_card_blocks(&mut image, CardType::Si10),
        Err(Error::DecoderError(DecoderError::InvalidReadoutDataLength))
    );
}

#[test]
fn readout_too_many_punches() {
    let mut image = vec![0xEEu8; 256];
    image[22] = 21;
    assert_eq!(
        CardReadout::decode(&image, CardType::PunchCard),
        Err(DecoderError::InvalidReadoutDataLength)
    );
    assert_eq!(
        CardReadout::decode(&image[..27], CardType::PunchCard),
        Err(DecoderError::InvalidReadoutDataLength)
    );
    assert_eq!(CardReadout::punches_offset(CardType::Si9), 56);
}

#[test]
fn block_cache_serves_fetched_blocks() {
    let mut cache = BlockCache::new();
    assert!(!cache.contains(0));
    cache.insert(0, [7u8; BLOCK_SIZE]);
    assert!(cache.contains(0));
    assert_eq!(cache.get_block(0), Ok([7u8; BLOCK_SIZE]));
    assert_eq!(
        cache.get_block(1),
        Err(Error::DecoderError(DecoderError::InvalidReadoutDataLength))
    );
}

#[test]
fn session_decisions() {
    let block = ReadCardDataResponse([1u8; BLOCK_SIZE]);
    assert_eq!(card_data_from_response(Ok(Responses::CardData(block))), Ok(block));
    assert_eq!(
        card_data_from_response(Ok(Responses::CardRemoved(CardRemoved))),
        Err(Error::CardRemovedWhileReadingData)
    );
    assert_eq!(
        card_data_from_response(Err(Error::DecoderError(DecoderError::InvalidCommandSent))),
        Err(Error::CardRemovedWhileReadingData)
    );
    assert_eq!(card_data_from_response(Err(Error::PortClosed)), Err(Error::PortClosed));
    assert_eq!(
        card_data_from_response(Ok(Responses::SetMasterSlaveResponse(SetMasterSlaveResponse))),
        Err(Error::InvalidResponseReceived)
    );
    let card = Card { card_type: CardType::Si8, number: 2_071_338 };
    assert_eq!(inserted_card(Responses::CardInserted(card)), Some(card));
    assert_eq!(inserted_card(Responses::CardRemoved(CardRemoved)), None);
    assert_eq!(
        punch_from_event(Responses::CardRemoved(CardRemoved)),
        Err(Error::InvalidResponseReceived)
    );
    assert_eq!(
        system_configuration_from_response(Responses::CardRemoved(CardRemoved)),
        Err(Error::InvalidResponseReceived)
    );
    assert_eq!(BaudProbe::HighSpeed.baud_rate(), 38_400);
    assert_eq!(
        BaudProbe::HighSpeed.next(false),
        (ProbeAction::Retry(LOW_SPEED_BAUD_RATE), BaudProbe::LowSpeed)
    );
    assert_eq!(BaudProbe::LowSpeed.next(false), (ProbeAction::Fail, BaudProbe::LowSpeed));
    assert_eq!(BaudProbe::LowSpeed.next(true), (ProbeAction::Configure, BaudProbe::LowSpeed));
}
