//! Amounts as text, answers as JSON, and the decisions on plain values.

use cosmwasm_std::testing::{mock_dependencies, mock_env};
use credits_delegation::contract::query::{
    balance_of, is_authorized, query_balance, query_is_authorized,
};
use credits_delegation::decimal::to_decimal;
use credits_delegation::rules::{amount_in, check_spender, credit, debit, single_coin};
use credits_delegation::state::{set_balance, set_grant};
use credits_delegation::{query, Coin, ContractError, Ledger, LedgerView, QueryMsg, Response};

#[test]
fn decimal_of_single_digits() {
    let digits = ["0", "1", "2", "3", "4", "5", "6", "7", "8", "9"];
    for (value, text) in digits.iter().enumerate() {
        assert_eq!(to_decimal(value as u128), *text);
    }
}

#[test]
fn decimal_has_the_most_significant_digit_first() {
    assert_eq!(to_decimal(10), "10");
    assert_eq!(to_decimal(12), "12");
    assert_eq!(to_decimal(500), "500");
    assert_eq!(to_decimal(1001), "1001");
    assert_eq!(to_decimal(9876543210), "9876543210");
}

#[test]
fn decimal_of_the_largest_amount() {
    assert_eq!(to_decimal(u128::MAX), "340282366920938463463374607431768211455");
    assert_eq!(to_decimal(u64::MAX as u128 + 1), "18446744073709551616");
}

#[test]
fn decimal_reads_as_the_standard_rendering() {
    for value in [0u128, 7, 42, 99, 100, 101, 65535, 1 << 100, u128::MAX - 1] {
        assert_eq!(to_decimal(value), value.to_string());
    }
}

#[test]
fn response_keeps_its_attributes_in_order() {
    let response = Response::new();
    assert!(response.attributes.is_empty());
    let response = response.add_attribute("action", "deposit").add_attribute("from", "user1");
    assert_eq!(response.attributes.len(), 2);
    assert_eq!(response.attributes[0].key, "action");
    assert_eq!(response.attributes[0].value, "deposit");
    assert_eq!(response.attributes[1].key, "from");
    assert_eq!(response.attributes[1].value, "user1");
}

#[test]
fn balance_is_answered_as_a_quoted_decimal() {
    let mut deps = mock_dependencies();
    set_balance(&mut Ledger { deps: deps.as_mut() }, "user1", 500).unwrap();
    let view = LedgerView { deps: deps.as_ref() };
    assert_eq!(query_balance(&view, "user1".to_string()).unwrap(), b"\"500\"".to_vec());
    assert_eq!(query_balance(&view, "user2".to_string()).unwrap(), b"\"0\"".to_vec());
}

#[test]
fn largest_balance_is_answered_whole() {
    let mut deps = mock_dependencies();
    set_balance(&mut Ledger { deps: deps.as_mut() }, "user1", u128::MAX).unwrap();
    let view = LedgerView { deps: deps.as_ref() };
    assert_eq!(
        query_balance(&view, "user1".to_string()).unwrap(),
        b"\"340282366920938463463374607431768211455\"".to_vec()
    );
}

#[test]
fn grant_is_answered_as_true_or_false() {
    let mut deps = mock_dependencies();
    set_grant(&mut Ledger { deps: deps.as_mut() }, "user1", "spender1", true).unwrap();
    let view = LedgerView { deps: deps.as_ref() };
    let yes = query_is_authorized(&view, "user1".to_string(), "spender1".to_string()).unwrap();
    assert_eq!(yes, b"true".to_vec());
    let no = query_is_authorized(&view, "user1".to_string(), "spender2".to_string()).unwrap();
    assert_eq!(no, b"false".to_vec());
}

#[test]
fn query_routes_each_message_to_its_answer() {
    let mut deps = mock_dependencies();
    set_balance(&mut Ledger { deps: deps.as_mut() }, "user1", 12).unwrap();
    set_grant(&mut Ledger { deps: deps.as_mut() }, "user1", "spender1", true).unwrap();
    let balance = query(
        LedgerView { deps: deps.as_ref() },
        mock_env(),
        QueryMsg::Balance { owner: "user1".to_string() },
    )
    .unwrap();
    assert_eq!(balance, b"\"12\"".to_vec());
    let flag = query(
        LedgerView { deps: deps.as_ref() },
        mock_env(),
        QueryMsg::IsAuthorized { owner: "user1".to_string(), spender: "spender1".to_string() },
    )
    .unwrap();
    assert_eq!(flag, b"true".to_vec());
}

#[test]
fn answers_are_read_back_by_the_json_decoder() {
    let mut deps = mock_dependencies();
    set_balance(&mut Ledger { deps: deps.as_mut() }, "user1", 1000).unwrap();
    let view = LedgerView { deps: deps.as_ref() };
    let bytes = query_balance(&view, "user1".to_string()).unwrap();
    assert_eq!(cosmwasm_std::from_json::<u128>(&bytes).unwrap(), 1000);
    let bytes = query_is_authorized(&view, "user1".to_string(), "user1".to_string()).unwrap();
    assert_eq!(cosmwasm_std::from_json::<bool>(&bytes).unwrap(), false);
}

#[test]
fn typed_reads_give_the_number_and_the_flag() {
    let mut deps = mock_dependencies();
    set_balance(&mut Ledger { deps: deps.as_mut() }, "user1", 1000).unwrap();
    set_grant(&mut Ledger { deps: deps.as_mut() }, "user1", "spender1", true).unwrap();
    let view = LedgerView { deps: deps.as_ref() };
    assert_eq!(balance_of(&view, "user1").unwrap(), 1000);
    assert_eq!(balance_of(&view, "spender1").unwrap(), 0);
    assert_eq!(is_authorized(&view, "user1", "spender1").unwrap(), true);
    assert_eq!(is_authorized(&view, "spender1", "user1").unwrap(), false);
}

#[test]
fn queries_fail_on_an_invalid_address() {
    let deps = mock_dependencies();
    let view = LedgerView { deps: deps.as_ref() };
    assert!(balance_of(&view, "x").is_err());
    assert!(balance_of(&view, "User1").is_err());
    assert!(is_authorized(&view, "x", "spender1").is_err());
    assert!(is_authorized(&view, "user1", "x").is_err());
    assert!(query_balance(&view, "".to_string()).is_err());
    assert!(query_is_authorized(&view, "user1".to_string(), "".to_string()).is_err());
    assert!(is_authorized(&view, &"a".repeat(65536), "spender1").is_err());
}

#[test]
fn single_coin_wants_exactly_one() {
    let one = vec![Coin { denom: "ucosm".to_string(), amount: 5 }];
    assert_eq!(single_coin(&one).unwrap(), &one[0]);
    let none: Vec<Coin> = vec![];
    assert!(matches!(single_coin(&none), Err(ContractError::InvalidFunds {})));
    let two = vec![
        Coin { denom: "ucosm".to_string(), amount: 5 },
        Coin { denom: "ucosm".to_string(), amount: 6 },
    ];
    assert!(matches!(single_coin(&two), Err(ContractError::InvalidFunds {})));
}

#[test]
fn amount_in_wants_the_accepted_denomination() {
    let coin = Coin { denom: "ucosm".to_string(), amount: 5 };
    assert_eq!(amount_in(&coin, &"ucosm".to_string()).unwrap(), 5);
    assert!(matches!(amount_in(&coin, &"uatom".to_string()), Err(ContractError::InvalidFunds {})));
    assert!(matches!(amount_in(&coin, &"".to_string()), Err(ContractError::InvalidFunds {})));
    assert!(matches!(amount_in(&coin, &"ucosmo".to_string()), Err(ContractError::InvalidFunds {})));
}

#[test]
fn check_spender_wants_the_owner_or_a_grant() {
    assert!(check_spender(true, false).is_ok());
    assert!(check_spender(false, true).is_ok());
    assert!(check_spender(true, true).is_ok());
    assert!(matches!(check_spender(false, false), Err(ContractError::Unauthorized {})));
}

#[test]
fn debit_gives_the_difference_or_refuses() {
    assert_eq!(debit(1000, 500).unwrap(), 500);
    assert_eq!(debit(500, 500).unwrap(), 0);
    assert_eq!(debit(0, 0).unwrap(), 0);
    assert_eq!(debit(u128::MAX, 1).unwrap(), u128::MAX - 1);
    assert!(matches!(debit(500, 501), Err(ContractError::InsufficientBalance {})));
    assert!(matches!(debit(0, 1), Err(ContractError::InsufficientBalance {})));
}

#[test]
fn credit_gives_the_sum_or_refuses() {
    assert_eq!(credit(0, 500).unwrap(), 500);
    assert_eq!(credit(700, 300).unwrap(), 1000);
    assert_eq!(credit(u128::MAX - 1, 1).unwrap(), u128::MAX);
    assert_eq!(credit(u128::MAX, 0).unwrap(), u128::MAX);
    assert!(matches!(credit(u128::MAX, 1), Err(ContractError::Overflow {})));
    assert!(matches!(credit(1, u128::MAX), Err(ContractError::Overflow {})));
}

#[test]
fn answered_balance_is_the_decimal_text_in_quotes() {
    for value in [0u128, 9, 10, 500, 1000, u64::MAX as u128, 1 << 127, u128::MAX] {
        let mut deps = mock_dependencies();
        set_balance(&mut Ledger { deps: deps.as_mut() }, "user1", value).unwrap();
        let bytes = query_balance(&LedgerView { deps: deps.as_ref() }, "user1".to_string()).unwrap();
        assert_eq!(bytes, format!("\"{}\"", to_decimal(value)).into_bytes());
    }
}

#[test]
fn balance_is_told_exactly_where_the_address_is_valid_and_the_entry_readable() {
    let mut deps = mock_dependencies();
    set_balance(&mut Ledger { deps: deps.as_mut() }, "user1", 5).unwrap();
    // an entry that does not read as a number, under a valid address
    let key = cw_storage_plus::Map::<&cosmwasm_std::Addr, u128>::new("balances")
        .key(&cosmwasm_std::Addr::unchecked("user2"));
    cosmwasm_std::Storage::set(&mut deps.storage, &key, b"five");
    // a readable entry under an address that the validator turns away
    set_balance(&mut Ledger { deps: deps.as_mut() }, "X", 6).unwrap();
    let view = LedgerView { deps: deps.as_ref() };
    assert_eq!(balance_of(&view, "user1").unwrap(), 5);
    assert_eq!(balance_of(&view, "user3").unwrap(), 0);
    assert!(balance_of(&view, "user2").is_err());
    assert!(balance_of(&view, "X").is_err());
    assert!(query_balance(&view, "user1".to_string()).is_ok());
    assert!(query_balance(&view, "user3".to_string()).is_ok());
    assert!(query_balance(&view, "user2".to_string()).is_err());
    assert!(query_balance(&view, "X".to_string()).is_err());
}

#[test]
fn grant_is_told_exactly_where_both_addresses_are_valid_and_the_entry_readable() {
    let mut deps = mock_dependencies();
    set_grant(&mut Ledger { deps: deps.as_mut() }, "user1", "spender1", true).unwrap();
    let grants = cw_storage_plus::Map::<(&cosmwasm_std::Addr, &cosmwasm_std::Addr), bool>::new(
        "authorized_spenders",
    );
    let user1 = cosmwasm_std::Addr::unchecked("user1");
    let spender2 = cosmwasm_std::Addr::unchecked("spender2");
    cosmwasm_std::Storage::set(&mut deps.storage, &grants.key((&user1, &spender2)), b"yes");
    let view = LedgerView { deps: deps.as_ref() };
    assert_eq!(is_authorized(&view, "user1", "spender1").unwrap(), true);
    assert_eq!(is_authorized(&view, "user1", "spender3").unwrap(), false);
    assert!(is_authorized(&view, "user1", "spender2").is_err());
    assert!(is_authorized(&view, "U", "spender1").is_err());
    assert!(is_authorized(&view, "user1", "S").is_err());
    assert!(query_is_authorized(&view, "user1".to_string(), "spender3".to_string()).is_ok());
    assert!(query_is_authorized(&view, "user1".to_string(), "spender2".to_string()).is_err());
    assert!(query_is_authorized(&view, "user1".to_string(), "S".to_string()).is_err());
}
