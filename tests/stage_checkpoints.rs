use reth_peers::command_line::{parse_u64, stage_from_name, str_eq, ArgsError};
use reth_peers::stage_checkpoints::{
    name_le, sort_checkpoints, AccessRights, Command, SetArgs, StageArg, StageCheckpoint, StageId,
    Subcommands,
};

#[test]
fn parse_set_args() {
    let command = Command::try_parse_from(&[
        "stage-checkpoints",
        "set",
        "--stage",
        "headers",
        "--block-number",
        "123",
    ])
    .unwrap();

    assert!(matches!(
        command.command,
        Subcommands::SetCheckpoint(SetArgs {
            stage: StageArg::Headers,
            block_number: 123,
            clear_stage_unit: false,
        })
    ));
}

#[test]
fn parse_set_args_any_order_with_clear() {
    let command = Command::try_parse_from(&[
        "stage-checkpoints",
        "set",
        "--clear-stage-unit",
        "--block-number",
        "18446744073709551615",
        "--stage",
        "index-account-history",
    ])
    .unwrap();
    assert_eq!(
        command.command,
        Subcommands::SetCheckpoint(SetArgs {
            stage: StageArg::IndexAccountHistory,
            block_number: u64::MAX,
            clear_stage_unit: true,
        })
    );
    assert_eq!(command.access_rights(), AccessRights::RW);
}

#[test]
fn parse_get_with_and_without_stage() {
    let all = Command::try_parse_from(&["stage-checkpoints", "get"]).unwrap();
    assert_eq!(all.command, Subcommands::Get { stage: None });
    assert_eq!(all.access_rights(), AccessRights::RO);
    let one = Command::try_parse_from(&["stage-checkpoints", "get", "--stage", "merkle-execute"])
        .unwrap();
    assert_eq!(one.command, Subcommands::Get { stage: Some(StageArg::MerkleExecute) });
    assert_eq!(one.access_rights(), AccessRights::RO);
}

#[test]
fn parse_errors() {
    assert_eq!(Command::try_parse_from(&["stage-checkpoints"]), Err(ArgsError::MissingSubcommand));
    assert_eq!(
        Command::try_parse_from(&["stage-checkpoints", "show"]),
        Err(ArgsError::UnknownSubcommand)
    );
    assert_eq!(
        Command::try_parse_from(&["stage-checkpoints", "get", "--block-number", "1"]),
        Err(ArgsError::UnexpectedArgument)
    );
    assert_eq!(
        Command::try_parse_from(&["stage-checkpoints", "set", "--stage"]),
        Err(ArgsError::MissingValue)
    );
    assert_eq!(
        Command::try_parse_from(&["stage-checkpoints", "get", "--stage", "era", "--stage", "era"]),
        Err(ArgsError::RepeatedArgument)
    );
    assert_eq!(
        Command::try_parse_from(&["stage-checkpoints", "get", "--stage", "Headers"]),
        Err(ArgsError::InvalidStage)
    );
    assert_eq!(
        Command::try_parse_from(&[
            "stage-checkpoints",
            "set",
            "--stage",
            "era",
            "--block-number",
            "18446744073709551616"
        ]),
        Err(ArgsError::InvalidNumber)
    );
    assert_eq!(
        Command::try_parse_from(&["stage-checkpoints", "set", "--stage", "era"]),
        Err(ArgsError::MissingRequired)
    );
}

#[test]
fn numbers_and_names() {
    assert_eq!(parse_u64("0"), Some(0));
    assert_eq!(parse_u64("42"), Some(42));
    assert_eq!(parse_u64(""), None);
    assert_eq!(parse_u64("-1"), None);
    assert_eq!(parse_u64("4x"), None);
    assert_eq!(stage_from_name("prune-sender-recovery"), Some(StageArg::PruneSenderRecovery));
    assert_eq!(stage_from_name("finish"), Some(StageArg::Finish));
    assert_eq!(stage_from_name("finis"), None);
    assert!(str_eq("abc", "abc"));
    assert!(!str_eq("abc", "abd"));
    assert!(!str_eq("abc", "ab"));
}

#[test]
fn stage_arg_maps_to_stage_id() {
    assert_eq!(StageId::from(StageArg::Headers), StageId::Headers);
    assert_eq!(StageId::from(StageArg::TransactionLookup), StageId::TransactionLookup);
    let args = SetArgs { stage: StageArg::Execution, block_number: 11, clear_stage_unit: false };
    assert_eq!(args.stage_id(), StageId::Execution);
}

#[test]
fn set_overwrites_block_number_and_keeps_unit() {
    let args = SetArgs { stage: StageArg::Headers, block_number: 42, clear_stage_unit: false };
    let previous = StageCheckpoint { block_number: 10, stage_checkpoint: Some(7u32) };
    assert_eq!(
        args.updated_checkpoint(Some(previous)),
        StageCheckpoint { block_number: 42, stage_checkpoint: Some(7u32) }
    );
    assert_eq!(
        args.updated_checkpoint::<u32>(None),
        StageCheckpoint { block_number: 42, stage_checkpoint: None }
    );
}

#[test]
fn set_clears_unit_when_asked() {
    let args = SetArgs { stage: StageArg::Execution, block_number: 12, clear_stage_unit: true };
    let previous = StageCheckpoint { block_number: 11, stage_checkpoint: Some(5u32) };
    assert_eq!(
        args.updated_checkpoint(Some(previous)),
        StageCheckpoint { block_number: 12, stage_checkpoint: None }
    );
}

#[test]
fn checkpoint_listing_is_ordered_by_name() {
    let entries = vec![
        ("StorageHashing".to_string(), 3u64),
        ("Bodies".to_string(), 1u64),
        ("MerkleExecute".to_string(), 2u64),
        ("AccountHashing".to_string(), 0u64),
        ("Bodies".to_string(), 9u64),
    ];
    let sorted = sort_checkpoints(entries);
    let names: Vec<&str> = sorted.iter().map(|(n, _)| n.as_str()).collect();
    assert_eq!(names, vec!["AccountHashing", "Bodies", "Bodies", "MerkleExecute", "StorageHashing"]);
    let mut values: Vec<u64> = sorted.iter().map(|(_, v)| *v).collect();
    values.sort();
    assert_eq!(values, vec![0, 1, 2, 3, 9]);
    assert!(sort_checkpoints::<u64>(Vec::new()).is_empty());
}

#[test]
fn names_compare_lexicographically() {
    assert!(name_le("Era", "Execution"));
    assert!(!name_le("Execution", "Era"));
    assert!(name_le("Prune", "PruneSenderRecovery"));
    assert!(!name_le("PruneSenderRecovery", "Prune"));
    assert!(name_le("", ""));
    assert!(name_le("Finish", "Finish"));
}
