use ethplorer::{
    date_or_timestamp, decode, decode_list, lookup, plain_bool, plain_number, plain_text,
    plain_texts, plain_u64, str_or_u128, str_or_u64, string_or_struct, zero, AddressInfo,
    AddressTransaction, CountTxs, DecodeError, Holder, LastBlock, Number, Operations, Price,
    Timestamp, TokenDailyPriceHistory, TokenDailyTransactionCounts, TokenHistory, TokenInfo,
    TokenPrice, TopTokenHolders, TopTokens, TransactionDate, ValueKind, WireValue,
};

fn text(s: &str) -> WireValue {
    WireValue::Text(s.to_string())
}

fn unsigned(n: u128) -> WireValue {
    WireValue::Number(Number::Unsigned(n))
}

fn signed(n: i128) -> WireValue {
    WireValue::Number(Number::Signed(n))
}

fn double(x: f64) -> WireValue {
    WireValue::Number(Number::Binary64(x.to_bits()))
}

fn structure(entries: Vec<(&str, WireValue)>) -> WireValue {
    WireValue::Struct(entries.into_iter().map(|(k, v)| (k.to_string(), v)).collect())
}

fn unexpected(found: ValueKind) -> DecodeError {
    DecodeError::UnexpectedKind { found }
}

#[test]
fn numeric_leaf_takes_number_and_text() {
    assert_eq!(str_or_u64(&unsigned(42)), Ok(42));
    assert_eq!(str_or_u64(&text("42")), Ok(42));
    assert_eq!(str_or_u64(&text("not-a-number")), Ok(0));
}

#[test]
fn numeric_leaf_absorbs_what_it_cannot_read() {
    assert_eq!(str_or_u64(&text("")), Ok(0));
    assert_eq!(str_or_u64(&text("-1")), Ok(0));
    assert_eq!(str_or_u64(&text("18446744073709551615")), Ok(u64::MAX));
    assert_eq!(str_or_u64(&text("18446744073709551616")), Ok(0));
    assert_eq!(str_or_u64(&unsigned(u64::MAX as u128)), Ok(u64::MAX));
    assert_eq!(str_or_u64(&unsigned(u64::MAX as u128 + 1)), Ok(0));
    assert_eq!(str_or_u64(&signed(7)), Ok(7));
    assert_eq!(str_or_u64(&signed(-7)), Ok(0));
    assert_eq!(str_or_u64(&double(1.5)), Ok(0));
    assert_eq!(str_or_u64(&WireValue::Absent), Ok(0));
    assert_eq!(str_or_u64(&WireValue::Bool(true)), Ok(0));
    assert_eq!(str_or_u64(&structure(vec![])), Ok(0));
}

#[test]
fn numeric_leaf_refuses_a_list() {
    assert_eq!(str_or_u64(&WireValue::List(vec![])), Err(unexpected(ValueKind::List)));
    assert_eq!(
        str_or_u128(&WireValue::List(vec![unsigned(1)])),
        Err(unexpected(ValueKind::List))
    );
}

#[test]
fn wide_numeric_leaf_holds_balances() {
    let big: u128 = 1_000_000_000_000_000_000_000_000_000;
    assert_eq!(str_or_u128(&unsigned(big)), Ok(big));
    assert_eq!(str_or_u128(&text("1000000000000000000000000000")), Ok(big));
    assert_eq!(str_or_u128(&text("+5")), Ok(5));
    assert_eq!(str_or_u128(&text("5 ")), Ok(0));
    assert_eq!(str_or_u128(&signed(-1)), Ok(0));
    assert_eq!(str_or_u128(&text("340282366920938463463374607431768211455")), Ok(u128::MAX));
    assert_eq!(str_or_u128(&text("340282366920938463463374607431768211456")), Ok(0));
    assert_eq!(str_or_u128(&WireValue::Bool(false)), Ok(0));
}

#[test]
fn timestamp_leaf_takes_seconds_and_calendar_text() {
    let from_number = date_or_timestamp(&unsigned(1609459200)).unwrap();
    let from_text = date_or_timestamp(&text("2021-01-01T00:00:00Z")).unwrap();
    assert_eq!(from_number, from_text);
    assert_eq!(from_number.timestamp(), 1609459200);
    assert_eq!(from_text, Timestamp::from_seconds(1609459200));
    let unreadable = date_or_timestamp(&text("yesterday")).unwrap();
    assert_eq!(unreadable.timestamp(), 0);
    assert_eq!(unreadable, Timestamp::default());
}

#[test]
fn timestamp_leaf_reads_offsets_and_drops_fractions() {
    let east = date_or_timestamp(&text("2021-01-01T01:00:00+01:00")).unwrap();
    assert_eq!(east.timestamp(), 1609459200);
    let spaced = date_or_timestamp(&text("2021-01-01 00:00:00Z")).unwrap();
    assert_eq!(spaced.timestamp(), 1609459200);
    let fraction = date_or_timestamp(&text("2021-01-01T00:00:00.750Z")).unwrap();
    assert_eq!(fraction.timestamp(), 1609459200);
    let before = date_or_timestamp(&text("1969-12-31T23:59:59Z")).unwrap();
    assert_eq!(before.timestamp(), -1);
    let no_offset = date_or_timestamp(&text("2021-01-01T00:00:00")).unwrap();
    assert_eq!(no_offset.timestamp(), 0);
    let a_number = date_or_timestamp(&text("1609459200")).unwrap();
    assert_eq!(a_number.timestamp(), 0);
}

#[test]
fn timestamp_leaf_absorbs_what_it_cannot_read() {
    assert_eq!(date_or_timestamp(&signed(-5)).unwrap().timestamp(), -5);
    assert_eq!(date_or_timestamp(&signed(i64::MIN as i128)).unwrap().timestamp(), i64::MIN);
    assert_eq!(date_or_timestamp(&unsigned(i64::MAX as u128)).unwrap().timestamp(), i64::MAX);
    assert_eq!(date_or_timestamp(&unsigned(i64::MAX as u128 + 1)).unwrap().timestamp(), 0);
    assert_eq!(date_or_timestamp(&signed(i64::MIN as i128 - 1)).unwrap().timestamp(), 0);
    assert_eq!(date_or_timestamp(&double(1.0)).unwrap().timestamp(), 0);
    assert_eq!(date_or_timestamp(&WireValue::Absent).unwrap().timestamp(), 0);
    assert_eq!(date_or_timestamp(&WireValue::Bool(true)).unwrap().timestamp(), 0);
    assert_eq!(date_or_timestamp(&structure(vec![])).unwrap().timestamp(), 0);
    assert_eq!(date_or_timestamp(&WireValue::List(vec![])), Err(unexpected(ValueKind::List)));
}

#[test]
fn timestamp_from_parsed_defaults_to_the_epoch() {
    assert_eq!(Timestamp::from_parsed(Some(12)).timestamp(), 12);
    assert_eq!(Timestamp::from_parsed(Some(-12)).timestamp(), -12);
    assert_eq!(Timestamp::from_parsed(None).timestamp(), 0);
    assert_eq!(Timestamp::from_text("2021-01-01T00:00:00Z").timestamp(), 1609459200);
    assert_eq!(Timestamp::from_text("").timestamp(), 0);
}

#[test]
fn plain_readers_take_one_kind() {
    assert_eq!(plain_u64(&unsigned(5)), Ok(5));
    assert_eq!(plain_u64(&signed(5)), Ok(5));
    assert_eq!(plain_u64(&WireValue::Absent), Ok(0));
    assert_eq!(plain_u64(&signed(-5)), Err(DecodeError::OutOfRange));
    assert_eq!(plain_u64(&unsigned(u64::MAX as u128 + 1)), Err(DecodeError::OutOfRange));
    assert_eq!(plain_u64(&double(5.0)), Err(DecodeError::OutOfRange));
    assert_eq!(plain_u64(&text("5")), Err(unexpected(ValueKind::Text)));
    assert_eq!(plain_u64(&WireValue::Bool(true)), Err(unexpected(ValueKind::Bool)));
    assert_eq!(plain_text(&text("abc")), Ok("abc".to_string()));
    assert_eq!(plain_text(&WireValue::Absent), Ok(String::new()));
    assert_eq!(plain_text(&unsigned(1)), Err(unexpected(ValueKind::Number)));
    assert_eq!(plain_bool(&WireValue::Bool(true)), Ok(true));
    assert_eq!(plain_bool(&WireValue::Absent), Ok(false));
    assert_eq!(plain_bool(&structure(vec![])), Err(unexpected(ValueKind::Struct)));
    assert_eq!(plain_number(&double(1.5)), Ok(Number::Binary64(1.5f64.to_bits())));
    assert_eq!(plain_number(&unsigned(0)), Ok(Number::Unsigned(0)));
    assert_eq!(plain_number(&WireValue::Absent), Ok(Number::Unsigned(0)));
    assert_eq!(plain_number(&text("1.5")), Err(unexpected(ValueKind::Text)));
}

#[test]
fn text_lists_are_read_item_by_item() {
    let tags = WireValue::List(vec![text("a"), WireValue::Absent, text("b")]);
    assert_eq!(
        plain_texts(&tags),
        Ok(vec!["a".to_string(), String::new(), "b".to_string()])
    );
    assert_eq!(plain_texts(&WireValue::Absent), Ok(Vec::new()));
    assert_eq!(plain_texts(&WireValue::List(vec![])), Ok(Vec::new()));
    assert_eq!(plain_texts(&text("a")), Err(unexpected(ValueKind::Text)));
    let faulty = WireValue::List(vec![text("a"), unsigned(1), WireValue::Bool(true)]);
    assert_eq!(plain_texts(&faulty), Err(unexpected(ValueKind::Number)));
}

#[test]
fn lookup_finds_the_first_entry() {
    let entries = vec![
        ("a".to_string(), unsigned(1)),
        ("b".to_string(), unsigned(2)),
        ("a".to_string(), unsigned(3)),
    ];
    assert_eq!(lookup(&entries, "a"), &unsigned(1));
    assert_eq!(lookup(&entries, "b"), &unsigned(2));
    assert_eq!(lookup(&entries, "c"), &WireValue::Absent);
    assert_eq!(lookup(&entries, "A"), &WireValue::Absent);
    assert_eq!(lookup(&Vec::new(), "a"), &WireValue::Absent);
}

#[test]
fn token_info_decimals_come_as_text() {
    let body = structure(vec![
        ("address", text("0xT")),
        ("name", text("Token")),
        ("decimals", text("18")),
        ("symbol", text("TKN")),
    ]);
    let info: TokenInfo = decode(&body).unwrap();
    assert_eq!(info.decimals, 18);
    assert_eq!(info.address, "0xT");
    assert_eq!(info.name, "Token");
    assert_eq!(info.symbol, "TKN");
    assert_eq!(info.total_supply, "");
    assert_eq!(info.holders_count, 0);
    assert_eq!(info.public_tags, Vec::<String>::new());
    assert_eq!(info.price, TokenPrice::default());
}

#[test]
fn token_info_reads_every_field() {
    let price = structure(vec![
        ("rate", double(1.25)),
        ("currency", text("USD")),
        ("diff", signed(-3)),
        ("volume24h", unsigned(1000)),
        ("marketCapUsd", double(2.5e9)),
        ("ts", unsigned(1609459200)),
    ]);
    let body = structure(vec![
        ("address", text("0xT")),
        ("name", text("Token")),
        ("decimals", unsigned(6)),
        ("symbol", text("TKN")),
        ("totalSupply", text("1000000")),
        ("owner", text("0xO")),
        ("txs_count", unsigned(1)),
        ("transfersCount", unsigned(2)),
        ("lastUpdated", unsigned(3)),
        ("slot", unsigned(4)),
        ("StorageTotalSupply", unsigned(5)),
        ("issuancesCount", unsigned(6)),
        ("holdersCount", unsigned(7)),
        ("image", text("i")),
        ("description", text("d")),
        ("website", text("w")),
        ("telegram", text("t")),
        ("twitter", text("tw")),
        ("reddit", text("r")),
        ("facebook", text("f")),
        ("coingecko", text("c")),
        ("ethTransfersCount", unsigned(8)),
        ("price", price),
        ("countOps", unsigned(9)),
        ("publicTags", WireValue::List(vec![text("x"), text("y")])),
        ("opCount", unsigned(10)),
        ("added", unsigned(11)),
        ("unknown", WireValue::List(vec![])),
    ]);
    let info: TokenInfo = decode(&body).unwrap();
    assert_eq!(info.decimals, 6);
    assert_eq!(info.total_supply, "1000000");
    assert_eq!(info.owner, "0xO");
    assert_eq!(
        (info.txs_count, info.transfers_count, info.last_updated, info.slot),
        (1, 2, 3, 4)
    );
    assert_eq!(
        (info.storage_total_supply, info.issuances_count, info.holders_count),
        (5, 6, 7)
    );
    assert_eq!(
        (info.image.as_str(), info.description.as_str(), info.website.as_str()),
        ("i", "d", "w")
    );
    assert_eq!(
        (info.telegram.as_str(), info.twitter.as_str(), info.reddit.as_str()),
        ("t", "tw", "r")
    );
    assert_eq!((info.facebook.as_str(), info.coingecko.as_str()), ("f", "c"));
    assert_eq!((info.eth_transfer_count, info.count_ops, info.op_count, info.added), (8, 9, 10, 11));
    assert_eq!(info.public_tags, vec!["x".to_string(), "y".to_string()]);
    assert_eq!(info.price.rate, Number::Binary64(1.25f64.to_bits()));
    assert_eq!(info.price.currency, "USD");
    assert_eq!(info.price.diff, Number::Signed(-3));
    assert_eq!(info.price.volume_24h, Number::Unsigned(1000));
    assert_eq!(info.price.market_cap_usd, Number::Binary64(2.5e9f64.to_bits()));
    assert_eq!(info.price.diff7d, Number::Unsigned(0));
    assert_eq!(info.price.ts, 1609459200);
}

#[test]
fn price_placeholder_gives_the_zero_price() {
    let nothing: TokenPrice = zero();
    assert_eq!(string_or_struct::<TokenPrice>(&WireValue::Bool(false)), Ok(zero()));
    assert_eq!(string_or_struct::<TokenPrice>(&text("")), Ok(zero()));
    assert_eq!(string_or_struct::<TokenPrice>(&WireValue::Absent), Ok(zero()));
    assert_eq!(string_or_struct::<TokenPrice>(&unsigned(0)), Ok(zero()));
    assert_eq!(
        string_or_struct::<TokenPrice>(&WireValue::List(vec![])),
        Err(unexpected(ValueKind::List))
    );
    let given = string_or_struct::<TokenPrice>(&structure(vec![("currency", text("USD"))])).unwrap();
    assert_eq!(given.currency, "USD");
    assert_eq!(given.rate, Number::Unsigned(0));
    assert_ne!(given, nothing);
    let token = structure(vec![("price", WireValue::Bool(false)), ("symbol", text("S"))]);
    let info: TokenInfo = decode(&token).unwrap();
    assert_eq!(info.price, nothing);
    assert_eq!(info.symbol, "S");
    let strict: Result<TokenPrice, DecodeError> = decode(&WireValue::Bool(false));
    assert_eq!(strict, Err(unexpected(ValueKind::Bool)));
}

#[test]
fn zero_values_stand_for_what_is_absent() {
    assert_eq!(LastBlock::default(), LastBlock { last_block: 0 });
    assert_eq!(TransactionDate::default(), TransactionDate { year: 0, month: 0, day: 0 });
    assert_eq!(decode::<LastBlock>(&WireValue::Absent), Ok(LastBlock { last_block: 0 }));
    assert_eq!(decode::<LastBlock>(&structure(vec![])), Ok(LastBlock::default()));
    let info = AddressInfo::default();
    assert_eq!(info.address, "");
    assert_eq!(info.tokens.len(), 0);
    assert_eq!(info.eth.balance, Number::Unsigned(0));
    assert_eq!(info.contract_info.timestamp, Timestamp::default());
    assert_eq!(decode::<AddressInfo>(&structure(vec![])), Ok(info));
    let price = TokenPrice::default();
    assert_eq!(price.currency, "");
    assert_eq!(price.ts, 0);
    assert_eq!(TokenDailyPriceHistory::default().history.prices.len(), 0);
}

#[test]
fn last_block_is_read() {
    let body = structure(vec![("lastBlock", unsigned(11_000_000))]);
    assert_eq!(decode::<LastBlock>(&body), Ok(LastBlock { last_block: 11_000_000 }));
    let wrong = structure(vec![("lastBlock", text("11000000"))]);
    assert_eq!(decode::<LastBlock>(&wrong), Err(unexpected(ValueKind::Text)));
    assert_eq!(decode::<LastBlock>(&WireValue::List(vec![])), Err(unexpected(ValueKind::List)));
    assert_eq!(decode::<LastBlock>(&unsigned(1)), Err(unexpected(ValueKind::Number)));
}

#[test]
fn the_first_faulty_field_decides() {
    let body = structure(vec![
        ("cnt", text("x")),
        ("ts", WireValue::Bool(true)),
        ("_id", structure(vec![("day", signed(-1)), ("month", WireValue::List(vec![]))])),
    ]);
    assert_eq!(decode::<CountTxs>(&body), Err(unexpected(ValueKind::List)));
    let body = structure(vec![("cnt", text("x")), ("ts", WireValue::Bool(true))]);
    assert_eq!(decode::<CountTxs>(&body), Err(unexpected(ValueKind::Bool)));
    let body = structure(vec![("cnt", text("x")), ("_id", structure(vec![("day", signed(-1))]))]);
    assert_eq!(decode::<CountTxs>(&body), Err(DecodeError::OutOfRange));
    let body = structure(vec![("cnt", text("x"))]);
    assert_eq!(decode::<CountTxs>(&body), Err(unexpected(ValueKind::Text)));
}

#[test]
fn daily_counts_are_read_in_order() {
    let day = |d: u128, n: u128| {
        structure(vec![
            ("_id", structure(vec![("year", unsigned(2021)), ("month", unsigned(1)), ("day", unsigned(d))])),
            ("ts", unsigned(1609459200 + 86400 * (d - 1))),
            ("cnt", unsigned(n)),
        ])
    };
    let body = structure(vec![("countTxs", WireValue::List(vec![day(1, 10), day(2, 20)]))]);
    let counts: TokenDailyTransactionCounts = decode(&body).unwrap();
    assert_eq!(
        counts.count_txs,
        vec![
            CountTxs { id: TransactionDate { year: 2021, month: 1, day: 1 }, ts: 1609459200, cnt: 10 },
            CountTxs { id: TransactionDate { year: 2021, month: 1, day: 2 }, ts: 1609545600, cnt: 20 },
        ]
    );
    let none: TokenDailyTransactionCounts = decode(&structure(vec![])).unwrap();
    assert_eq!(none.count_txs, Vec::new());
    let wrong = structure(vec![("countTxs", structure(vec![]))]);
    assert_eq!(
        decode::<TokenDailyTransactionCounts>(&wrong),
        Err(unexpected(ValueKind::Struct))
    );
}

#[test]
fn lists_of_records_stop_at_the_first_fault() {
    let good = structure(vec![("address", text("0xH")), ("balance", double(1.5)), ("share", unsigned(3))]);
    let list = WireValue::List(vec![good, WireValue::Absent]);
    let holders: Vec<Holder> = decode_list(&list).unwrap();
    assert_eq!(holders.len(), 2);
    assert_eq!(holders[0].address, "0xH");
    assert_eq!(holders[0].balance, Number::Binary64(1.5f64.to_bits()));
    assert_eq!(holders[0].share, Number::Unsigned(3));
    assert_eq!(holders[1], Holder::default());
    let faulty = WireValue::List(vec![
        structure(vec![]),
        structure(vec![("balance", text("1"))]),
        WireValue::Bool(true),
    ]);
    assert_eq!(decode_list::<Holder>(&faulty), Err(unexpected(ValueKind::Text)));
    let faulty = WireValue::List(vec![structure(vec![]), WireValue::Bool(true)]);
    assert_eq!(decode_list::<Holder>(&faulty), Err(unexpected(ValueKind::Bool)));
    assert_eq!(decode_list::<Holder>(&WireValue::Absent), Ok(Vec::new()));
    assert_eq!(decode_list::<Holder>(&text("")), Err(unexpected(ValueKind::Text)));
    let top: TopTokenHolders = decode(&structure(vec![("holders", list_of_one_holder())])).unwrap();
    assert_eq!(top.holders.len(), 1);
}

fn list_of_one_holder() -> WireValue {
    WireValue::List(vec![structure(vec![("address", text("0xH"))])])
}

#[test]
fn address_info_is_read_with_its_parts() {
    let token = structure(vec![
        ("tokenInfo", structure(vec![("symbol", text("TKN")), ("decimals", text("8"))])),
        ("balance", double(12.5)),
        ("rawBalance", text("1250000000")),
        ("totalIn", unsigned(0)),
        ("totalOut", unsigned(0)),
    ]);
    let body = structure(vec![
        ("address", text("0xabc")),
        ("eth", structure(vec![("price", WireValue::Bool(false)), ("balance", double(0.5))])),
        (
            "contract_info",
            structure(vec![
                ("creator_hash", text("0xC")),
                ("transaction_hash", text("0xTX")),
                ("timestamp", text("2021-01-01T00:00:00Z")),
            ]),
        ),
        ("tokens", WireValue::List(vec![token])),
    ]);
    let info: AddressInfo = decode(&body).unwrap();
    assert_eq!(info.address, "0xabc");
    assert_eq!(info.eth.balance, Number::Binary64(0.5f64.to_bits()));
    assert_eq!(info.eth.price, TokenPrice::default());
    assert_eq!(info.contract_info.creator_hash, "0xC");
    assert_eq!(info.contract_info.transaction_hash, "0xTX");
    assert_eq!(info.contract_info.timestamp.timestamp(), 1609459200);
    assert_eq!(info.token_info, TokenInfo::default());
    assert_eq!(info.tokens.len(), 1);
    assert_eq!(info.tokens[0].token_info.symbol, "TKN");
    assert_eq!(info.tokens[0].token_info.decimals, 8);
    assert_eq!(info.tokens[0].balance, Number::Binary64(12.5f64.to_bits()));
    assert_eq!(info.tokens[0].raw_balance, "1250000000");
}

#[test]
fn operations_are_read() {
    let operation = structure(vec![
        ("timestamp", unsigned(1609459200)),
        ("transaction_hash", text("0xTX")),
        ("tokenInfo", structure(vec![("symbol", text("TKN"))])),
        ("type", text("transfer")),
        ("from", text("0xA")),
        ("to", text("0xB")),
        ("value", text("123456789012345678901234567890")),
    ]);
    let body = structure(vec![("operations", WireValue::List(vec![operation]))]);
    let history: TokenHistory = decode(&body).unwrap();
    assert_eq!(history.operations.len(), 1);
    let op: &Operations = &history.operations[0];
    assert_eq!(op.timestamp.timestamp(), 1609459200);
    assert_eq!(op.transaction_hash, "0xTX");
    assert_eq!(op.token_info.symbol, "TKN");
    assert_eq!(op.op_type, "transfer");
    assert_eq!(op.address, "");
    assert_eq!((op.from.as_str(), op.to.as_str()), ("0xA", "0xB"));
    assert_eq!(op.value, 123456789012345678901234567890u128);
}

#[test]
fn address_transactions_are_read() {
    let body = structure(vec![
        ("timestamp", unsigned(1609459200)),
        ("from", text("0xA")),
        ("to", text("0xB")),
        ("hash", text("0xH")),
        ("value", double(0.25)),
        ("input", text("0x")),
        ("success", WireValue::Bool(true)),
    ]);
    let tx: AddressTransaction = decode(&body).unwrap();
    assert_eq!(tx.timestamp, Timestamp::from_seconds(1609459200));
    assert_eq!(tx.hash, "0xH");
    assert_eq!(f64::from_bits(match tx.value {
        Number::Binary64(bits) => bits,
        _ => panic!("a double was sent"),
    }), 0.25);
    assert_eq!(tx.input, "0x");
    assert!(tx.success);
    let wrong = structure(vec![("success", unsigned(1))]);
    assert_eq!(decode::<AddressTransaction>(&wrong), Err(unexpected(ValueKind::Number)));
}

#[test]
fn price_history_is_read() {
    let price = structure(vec![
        ("ts", unsigned(1609459200)),
        ("date", text("2021-01-01T00:00:00Z")),
        ("open", double(1.0)),
        ("close", double(2.0)),
        ("high", double(3.0)),
        ("low", double(0.5)),
        ("volume", unsigned(100)),
        ("volumeConverted", double(150.0)),
        ("average", double(1.5)),
    ]);
    let body = structure(vec![(
        "history",
        structure(vec![
            ("countTxs", WireValue::List(vec![structure(vec![("cnt", unsigned(3))])])),
            ("prices", WireValue::List(vec![price])),
        ]),
    )]);
    let answer: TokenDailyPriceHistory = decode(&body).unwrap();
    assert_eq!(answer.history.count_txs.len(), 1);
    assert_eq!(answer.history.count_txs[0].cnt, 3);
    assert_eq!(answer.history.prices.len(), 1);
    let p: &Price = &answer.history.prices[0];
    assert_eq!(p.ts, 1609459200);
    assert_eq!(p.date.timestamp(), 1609459200);
    assert_eq!(p.open, Number::Binary64(1.0f64.to_bits()));
    assert_eq!(p.close, Number::Binary64(2.0f64.to_bits()));
    assert_eq!(p.high, Number::Binary64(3.0f64.to_bits()));
    assert_eq!(p.low, Number::Binary64(0.5f64.to_bits()));
    assert_eq!(p.volume, Number::Unsigned(100));
    assert_eq!(p.volume_usd, Number::Binary64(150.0f64.to_bits()));
    assert_eq!(p.average, Number::Binary64(1.5f64.to_bits()));
}

#[test]
fn top_tokens_are_read() {
    let body = structure(vec![
        (
            "tokens",
            WireValue::List(vec![
                structure(vec![("symbol", text("A")), ("decimals", text("18"))]),
                structure(vec![("symbol", text("B")), ("decimals", unsigned(6))]),
            ]),
        ),
        ("opCount", unsigned(7)),
    ]);
    let top: TopTokens = decode(&body).unwrap();
    assert_eq!(top.op_count, 7);
    assert_eq!(top.tokens.len(), 2);
    assert_eq!((top.tokens[0].symbol.as_str(), top.tokens[0].decimals), ("A", 18));
    assert_eq!((top.tokens[1].symbol.as_str(), top.tokens[1].decimals), ("B", 6));
}

#[test]
fn kinds_are_told_apart() {
    assert_eq!(WireValue::Absent.kind(), ValueKind::Absent);
    assert_eq!(WireValue::Bool(false).kind(), ValueKind::Bool);
    assert_eq!(unsigned(0).kind(), ValueKind::Number);
    assert_eq!(text("").kind(), ValueKind::Text);
    assert_eq!(WireValue::List(vec![]).kind(), ValueKind::List);
    assert_eq!(structure(vec![]).kind(), ValueKind::Struct);
    assert_eq!(text("").reject(), unexpected(ValueKind::Text));
    assert_eq!(Number::Unsigned(5).to_u64(), Some(5));
    assert_eq!(Number::Signed(-5).to_u64(), None);
    assert_eq!(Number::Signed(-5).to_i64(), Some(-5));
    assert_eq!(Number::Unsigned(u128::MAX).to_u128(), Some(u128::MAX));
    assert_eq!(Number::Unsigned(u128::MAX).to_i64(), None);
    assert_eq!(Number::Binary64(0).to_u128(), None);
    assert_eq!(Number::default(), Number::Unsigned(0));
}
