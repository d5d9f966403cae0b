use tile_geometry::geometry::{
    Command, DecodedCommand, DecodedParameter, Geometry, GeometryError, MAX_DECODED_COMMAND_COUNT,
};

#[test]
fn test_param_decoding() {
    let enc_dec: Vec<(u32, i32)> = vec![
        // (par, val)
        (0, 0),
        (1, -1),
        (2, 1),
        (3, -2),
        (4, 2),
        (50, 25),
        // positive integers p are encoded as 2 * p
        (0xfffffffe, 0x7fffffff),
        // negative integers n are encoded as 2 * |n| - 1
        (0xffffffff, -0x80000000),
    ];

    for (encoded, exp_decoded) in enc_dec.into_iter() {
        let res: DecodedParameter = DecodedParameter::from(encoded);
        assert_eq!(res.raw_value, exp_decoded);
    }
}

#[test]
fn test_command_decoding() {
    let enc_dec = vec![(9, Command::MoveTo, 1)];
    for (encoded, expected_command, expected_count) in enc_dec.into_iter() {
        let decoded: DecodedCommand = DecodedCommand::try_from(encoded).unwrap();
        assert_eq!(decoded.command(), expected_command);
        assert_eq!(decoded.count(), expected_count);
    }
}

#[test]
fn test_vec_decoding() {
    let input = &vec![17, 10, 14, 3, 9]; // MoveTo x2
    let geometry: Geometry = Geometry::try_from(input).unwrap();
    assert_eq!(geometry.operations.get(0).unwrap().command, Command::MoveTo);
    assert_eq!(geometry.operations.get(0).unwrap().params.len(), 2);
    assert_eq!(
        geometry
            .operations
            .get(0)
            .unwrap()
            .params
            .iter()
            .map(|p| p.raw_value)
            .collect::<Vec<_>>(),
        vec![5, 7]
    );
    assert_eq!(
        geometry
            .operations
            .get(1)
            .unwrap()
            .params
            .iter()
            .map(|p| p.raw_value)
            .collect::<Vec<_>>(),
        vec![-2, -5]
    );
}

fn zigzag_encode(v: i32) -> u32 {
    if v >= 0 {
        2 * (v as u32)
    } else {
        2 * (-(v as i64) as u32) - 1
    }
}

#[test]
fn zigzag_round_trip_covers_extremes() {
    let values: Vec<i32> = vec![
        0,
        1,
        -1,
        2,
        -2,
        25,
        -25,
        4096,
        -4096,
        0x7fffffff,
        -0x80000000,
        0x7ffffffe,
        -0x7fffffff,
    ];
    for v in values.into_iter() {
        let encoded = zigzag_encode(v);
        assert_eq!(DecodedParameter::from(encoded).raw_value, v);
    }
    assert_eq!(zigzag_encode(0x7fffffff), 0xfffffffe);
    assert_eq!(zigzag_encode(-0x80000000), 0xffffffff);
}

#[test]
fn empty_input_is_rejected() {
    let input: Vec<u32> = vec![];
    assert_eq!(Geometry::try_from(&input).unwrap_err(), GeometryError::EmptyInput);
}

#[test]
fn first_command_must_be_move_to() {
    // 10 -> LineTo with count 1, 15 -> ClosePath with count 1
    let line_first: Vec<u32> = vec![10, 2, 4];
    assert_eq!(
        Geometry::try_from(&line_first).unwrap_err(),
        GeometryError::InvalidFirstCommand
    );
    let close_first: Vec<u32> = vec![15];
    assert_eq!(
        Geometry::try_from(&close_first).unwrap_err(),
        GeometryError::InvalidFirstCommand
    );
}

#[test]
fn zero_count_move_to_does_not_satisfy_the_first_command_rule() {
    // 1 -> MoveTo with count 0 emits no operation, so the LineTo after it
    // is still the first command to produce anything
    let input: Vec<u32> = vec![1, 10, 2, 4];
    assert_eq!(
        Geometry::try_from(&input).unwrap_err(),
        GeometryError::InvalidFirstCommand
    );
}

#[test]
fn missing_parameters_are_rejected() {
    // 9 -> MoveTo with count 1: two parameters owed, only one present
    let input: Vec<u32> = vec![9, 4];
    assert_eq!(
        Geometry::try_from(&input).unwrap_err(),
        GeometryError::TruncatedParameters
    );
}

#[test]
fn unknown_command_id_is_rejected() {
    // 3 is no command identifier
    let input: Vec<u32> = vec![3];
    assert_eq!(Geometry::try_from(&input).unwrap_err(), GeometryError::UnknownCommand);
    assert_eq!(Command::try_from(0).unwrap_err(), GeometryError::UnknownCommand);
    assert_eq!(Command::try_from(1).unwrap(), Command::MoveTo);
    assert_eq!(Command::try_from(2).unwrap(), Command::LineTo);
    assert_eq!(Command::try_from(7).unwrap(), Command::ClosePath);
}

#[test]
fn trailing_data_is_not_ignored() {
    // a valid two-operation stream followed by one extra integer fails
    // instead of being silently truncated
    let input: Vec<u32> = vec![17, 10, 14, 3, 9, 6];
    assert!(Geometry::try_from(&input).is_err());
}

#[test]
fn decoding_is_deterministic() {
    let input: Vec<u32> = vec![17, 10, 14, 3, 9];
    let g1 = Geometry::try_from(&input).unwrap();
    let g2 = Geometry::try_from(&input).unwrap();
    assert_eq!(g1, g2);
}

#[test]
fn mixed_commands_decode_in_order() {
    // MoveTo (2,2); LineTo x2: (1,1), (3,4); ClosePath
    let input: Vec<u32> = vec![9, 4, 4, 18, 2, 2, 6, 8, 15];
    let geometry = Geometry::try_from(&input).unwrap();
    assert_eq!(geometry.operations.len(), 4);
    assert_eq!(geometry.operations[0].command, Command::MoveTo);
    assert_eq!(
        geometry.operations[0].params.iter().map(|p| p.raw_value).collect::<Vec<_>>(),
        vec![2, 2]
    );
    assert_eq!(geometry.operations[1].command, Command::LineTo);
    assert_eq!(
        geometry.operations[1].params.iter().map(|p| p.raw_value).collect::<Vec<_>>(),
        vec![1, 1]
    );
    assert_eq!(geometry.operations[2].command, Command::LineTo);
    assert_eq!(
        geometry.operations[2].params.iter().map(|p| p.raw_value).collect::<Vec<_>>(),
        vec![3, 4]
    );
    assert_eq!(geometry.operations[3].command, Command::ClosePath);
    assert_eq!(geometry.operations[3].params.len(), 0);
}

#[test]
fn move_to_with_zero_count_produces_no_operation() {
    // a single MoveTo command word with count 0 emits nothing, and a
    // stream without operations counts as empty
    let input: Vec<u32> = vec![1];
    assert_eq!(Geometry::try_from(&input).unwrap_err(), GeometryError::EmptyInput);
}

#[test]
fn command_count_ceiling_is_enforced() {
    assert_eq!(
        DecodedCommand::try_from_parts(1, MAX_DECODED_COMMAND_COUNT + 1).unwrap_err(),
        GeometryError::CommandCountOverflow
    );
    let ok = DecodedCommand::try_from_parts(2, 5).unwrap();
    assert_eq!(ok.command(), Command::LineTo);
    assert_eq!(ok.count(), 5);
    assert_eq!(
        DecodedCommand::try_from_parts(4, 5).unwrap_err(),
        GeometryError::UnknownCommand
    );
}

#[test]
fn bounded_parameter_constructor_rejects_all_values() {
    // the published bounds exclude every value, the extremes included;
    // the primary decode path is the one that accepts the full range
    assert_eq!(
        DecodedParameter::try_from(0).unwrap_err(),
        GeometryError::ParameterOutOfRange
    );
    assert_eq!(
        DecodedParameter::try_from(0x7fffffff).unwrap_err(),
        GeometryError::ParameterOutOfRange
    );
    assert_eq!(
        DecodedParameter::try_from(-0x80000000).unwrap_err(),
        GeometryError::ParameterOutOfRange
    );
}

#[test]
fn error_messages_name_the_cause() {
    assert_eq!(GeometryError::EmptyInput.message(), "empty vector of geometry ints");
    assert_eq!(GeometryError::UnknownCommand.message(), "wrong command ID");
    assert_eq!(
        GeometryError::InvalidFirstCommand.message(),
        "first command is not MoveTo"
    );
    assert_eq!(GeometryError::TruncatedParameters.message(), "not enough params");
    assert_eq!(
        GeometryError::CommandCountOverflow.message(),
        "command count too large"
    );
    assert_eq!(
        GeometryError::ParameterOutOfRange.message(),
        "parameter out of range"
    );
}
