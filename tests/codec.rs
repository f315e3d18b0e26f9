use solvers_dto::auction::{
    self, has_distinct_ticks, Auction, ConcentratedLiquidityPool, ConstantProductPool,
    ConstantProductReserve, Liquidity, LiquidityKind, Order,
};
use solvers_dto::order_uid::OrderUid;
use solvers_dto::primitives::B256;
use solvers_dto::error::CodecError;
use solvers_dto::json::Json;
use solvers_dto::notification::{self, SolutionId};
use solvers_dto::solution::{
    self, BuyTokenBalance, Call, InteractionKind, SellTokenBalance, Solution, TradeKind,
};
use solvers_dto::primitives::{has_distinct_keys, unique_addresses, Address, Bytes};
use solvers_dto::uint::{i64_from_decimal, i64_to_decimal, U256};
use solvers_dto::values::{Decimal, Timestamp, WRITABLE_SECONDS};

const U256_MAX: &str =
    "115792089237316195423570985008687907853269984665640564039457584007913129639935";

#[test]
fn can_serialize_auction_response() {
    let auction: Auction = Auction {
        id: Some(123),
        tokens: Default::default(),
        orders: vec![],
        liquidity: vec![],
        effective_gas_price: Default::default(),
        deadline: Default::default(),
        surplus_capturing_jit_order_owners: vec![],
    };
    let serialized_id = Auction::id_to_wire(auction.id);
    let id = Auction::id_from_wire(serialized_id.as_deref()).unwrap();

    assert_eq!(id, Some(123));
}

#[test]
fn auction_id_absent_and_malformed() {
    assert_eq!(Auction::id_to_wire(None), None);
    assert_eq!(Auction::id_from_wire(None), Ok(None));
    assert_eq!(Auction::id_to_wire(Some(9008466)), Some("9008466".to_string()));
    assert_eq!(Auction::id_from_wire(Some("x1")), Err(CodecError::InvalidInteger));
}

#[test]
fn signed_decimal_text() {
    assert_eq!(i64_to_decimal(-5), "-5");
    assert_eq!(i64_from_decimal("-5"), Ok(-5));
    assert_eq!(i64_from_decimal("9223372036854775807"), Ok(i64::MAX));
    assert_eq!(i64_from_decimal("-9223372036854775808"), Ok(i64::MIN));
    assert_eq!(i64_from_decimal("9223372036854775808"), Err(CodecError::InvalidInteger));
    assert_eq!(i64_from_decimal("-"), Err(CodecError::InvalidInteger));
    assert_eq!(i64_from_decimal(""), Err(CodecError::InvalidInteger));
    assert_eq!(i64_from_decimal("+5"), Err(CodecError::InvalidInteger));
}

#[test]
fn u256_decimal_round_trip_beyond_u64() {
    let v = U256::from_decimal(U256_MAX).unwrap();
    assert_eq!(v.limbs, [u64::MAX; 4]);
    assert_eq!(v.to_decimal(), U256_MAX);
    let big = U256::from_decimal("18446744073709551616").unwrap();
    assert_eq!(big.limbs, [0, 1, 0, 0]);
    assert_eq!(big.to_decimal(), "18446744073709551616");
    assert_eq!(U256::zero().to_decimal(), "0");
    assert_eq!(U256::from_u64(42).to_decimal(), "42");
}

#[test]
fn u256_rejects_invalid_text() {
    let over = "115792089237316195423570985008687907853269984665640564039457584007913129639936";
    assert_eq!(U256::from_decimal(over), Err(CodecError::InvalidInteger));
    assert_eq!(U256::from_decimal("-1"), Err(CodecError::InvalidInteger));
    assert_eq!(U256::from_decimal("12a"), Err(CodecError::InvalidInteger));
    assert_eq!(U256::from_decimal(""), Err(CodecError::InvalidInteger));
    assert_eq!(U256::from_decimal("1_000"), Err(CodecError::InvalidInteger));
}

#[test]
fn enum_wire_names() {
    assert_eq!(auction::Kind::Sell.wire_name(), "sell");
    assert_eq!(auction::Kind::from_wire("buy"), Ok(auction::Kind::Buy));
    assert_eq!(auction::Class::from_wire("limit"), Ok(auction::Class::Limit));
    assert_eq!(auction::SigningScheme::EthSign.wire_name(), "ethsign");
    assert_eq!(solution::SigningScheme::EthSign.wire_name(), "ethSign");
    assert_eq!(auction::SellTokenSource::from_wire("external"), Ok(auction::SellTokenSource::External));
    assert_eq!(auction::BuyTokenDestination::Internal.wire_name(), "internal");
    assert_eq!(auction::WeightedProductVersion::V3Plus.wire_name(), "v3Plus");
    assert_eq!(solution::Kind::from_wire("sell"), Ok(solution::Kind::Sell));
    assert_eq!(
        auction::Kind::from_wire("Sell"),
        Err(CodecError::UnknownVariant("Sell".to_string()))
    );
}

#[test]
fn balance_defaults_to_erc20_when_absent() {
    assert_eq!(SellTokenBalance::from_wire_or_default(None), Ok(SellTokenBalance::Erc20));
    assert_eq!(BuyTokenBalance::from_wire_or_default(None), Ok(BuyTokenBalance::Erc20));
    assert_eq!(
        SellTokenBalance::from_wire_or_default(Some("internal")),
        Ok(SellTokenBalance::Internal)
    );
    assert_eq!(
        BuyTokenBalance::from_wire_or_default(Some("external")),
        Err(CodecError::UnknownVariant("external".to_string()))
    );
    assert_eq!(SellTokenBalance::default(), SellTokenBalance::Erc20);
}

#[test]
fn solution_defaults_absent_members() {
    let s = Solution::from_members(1, vec![], vec![], None, vec![], None, None);
    assert!(s.pre_interactions.is_empty());
    assert!(s.post_interactions.is_empty());
    assert_eq!(s.gas, None);
    let call = Call { target: Address::repeat_byte(1), value: U256::from_u64(2), calldata: Bytes(vec![3]) };
    let s = Solution::from_members(2, vec![], vec![], Some(vec![call]), vec![], None, Some(7));
    assert_eq!(s.pre_interactions.len(), 1);
    assert_eq!(s.gas, Some(7));
}

fn number(t: &str) -> Json {
    Json::Number(t.to_string())
}

#[test]
fn solution_id_by_shape() {
    assert_eq!(SolutionId::from_json(&number("7")), Ok(SolutionId::Single(7)));
    assert_eq!(
        SolutionId::from_json(&Json::Array(vec![number("7"), number("8")])),
        Ok(SolutionId::Merged(vec![7, 8]))
    );
    assert_eq!(
        SolutionId::from_json(&Json::Text("7".to_string())),
        Err(CodecError::StructuralMismatch)
    );
    assert_eq!(
        SolutionId::from_json(&Json::Array(vec![number("7"), Json::Null])),
        Err(CodecError::StructuralMismatch)
    );
    assert_eq!(SolutionId::from_json(&number("-1")), Err(CodecError::StructuralMismatch));
    match SolutionId::Merged(vec![7, 8]).to_json() {
        Json::Array(items) => assert_eq!(items.len(), 2),
        _ => panic!("a merged id is written as a list"),
    }
    match SolutionId::Single(7).to_json() {
        Json::Number(t) => assert_eq!(t, "7"),
        _ => panic!("a single id is written as a number"),
    }
}

fn object(kind: &str) -> Json {
    Json::Object(vec![
        ("id".to_string(), Json::Text("0".to_string())),
        ("kind".to_string(), Json::Text(kind.to_string())),
    ])
}

#[test]
fn unknown_liquidity_kind_is_rejected() {
    assert_eq!(
        LiquidityKind::from_json(&object("unknownPool")),
        Err(CodecError::UnknownVariant("unknownPool".to_string()))
    );
    assert_eq!(LiquidityKind::from_json(&object("stable")), Ok(LiquidityKind::Stable));
    assert_eq!(
        LiquidityKind::from_json(&Json::Object(vec![])),
        Err(CodecError::MissingRequiredField("kind".to_string()))
    );
    assert_eq!(TradeKind::from_json(&object("jit")), Ok(TradeKind::Jit));
    assert_eq!(InteractionKind::from_json(&object("custom")), Ok(InteractionKind::Custom));
}

#[test]
fn notification_kind_names() {
    assert_eq!(notification::Kind::Timeout.wire_name(), "timeout");
    assert_eq!(
        notification::Kind::DriverError { reason: "x".to_string() }.wire_name(),
        "driverError"
    );
}

#[test]
fn decimal_and_timestamp_text() {
    let d = Decimal::from_wire("0.003").unwrap();
    assert_eq!(d.to_wire(), "0.003");
    assert_eq!(Decimal::from_wire("abc"), Err(CodecError::InvalidInteger));
    assert_eq!(Decimal::from_wire("007.25").unwrap().to_wire(), "7.25");
    let t = Timestamp::from_wire("1970-01-01T01:00:00+01:00").unwrap();
    assert_eq!(t, Timestamp { seconds: 0, nanos: 0 });
    let t = Timestamp::from_wire("1970-01-01T00:01:00Z").unwrap();
    assert_eq!(t, Timestamp { seconds: 60, nanos: 0 });
    assert_eq!(t.to_wire(), Some("1970-01-01T00:01:00Z".to_string()));
    assert_eq!(Timestamp::from_wire("yesterday"), Err(CodecError::StructuralMismatch));
}

#[test]
fn unique_keys_and_token_sets() {
    let a = Address::repeat_byte(1);
    let b = Address::repeat_byte(2);
    assert!(has_distinct_keys(&vec![(a, 1u8), (b, 2u8)]));
    assert!(!has_distinct_keys(&vec![(a, 1u8), (b, 2u8), (a, 3u8)]));
    assert!(has_distinct_keys::<u8>(&vec![]));
    assert_eq!(unique_addresses(&vec![b, a, b, b, a]), vec![b, a]);
    match notification::Kind::non_bufferable_tokens_used(&vec![a, a, b]) {
        notification::Kind::NonBufferableTokensUsed { tokens } => assert_eq!(tokens, vec![a, b]),
        _ => panic!("wrong event"),
    }
    let s = Solution::from_members(
        1,
        vec![(a, U256::from_u64(1)), (a, U256::from_u64(2))],
        vec![],
        None,
        vec![],
        None,
        None,
    );
    assert!(!s.has_unique_prices());
}

fn jit_order_object(balance: Option<Json>) -> Json {
    let mut members = vec![
        ("sellToken".to_string(), Json::Text(format!("0x{}", "11".repeat(20)))),
        ("kind".to_string(), Json::Text("sell".to_string())),
    ];
    if let Some(b) = balance {
        members.push(("sellTokenBalance".to_string(), b));
    }
    Json::Object(members)
}

#[test]
fn jit_order_without_sell_token_balance_reads_erc20() {
    assert_eq!(SellTokenBalance::from_object(&jit_order_object(None)), Ok(SellTokenBalance::Erc20));
    assert_eq!(BuyTokenBalance::from_object(&jit_order_object(None)), Ok(BuyTokenBalance::Erc20));
    assert_eq!(
        SellTokenBalance::from_object(&jit_order_object(Some(Json::Text("external".to_string())))),
        Ok(SellTokenBalance::External)
    );
    assert_eq!(
        SellTokenBalance::from_object(&jit_order_object(Some(Json::Bool(true)))),
        Err(CodecError::StructuralMismatch)
    );
}

#[test]
fn solution_without_gas_reads_none() {
    let no_gas = Json::Object(vec![("id".to_string(), number("1"))]);
    assert_eq!(Solution::gas_from_object(&no_gas), Ok(None));
    let null_gas = Json::Object(vec![("gas".to_string(), Json::Null)]);
    assert_eq!(Solution::gas_from_object(&null_gas), Ok(None));
    let gas = Json::Object(vec![("gas".to_string(), number("21000"))]);
    assert_eq!(Solution::gas_from_object(&gas), Ok(Some(21000)));
    let bad = Json::Object(vec![("gas".to_string(), Json::Text("x".to_string()))]);
    assert_eq!(Solution::gas_from_object(&bad), Err(CodecError::InvalidInteger));
}

#[test]
fn auction_order_uid_and_id_survive_the_wire() {
    let mut owner = [0u8; 20];
    owner[19] = 2;
    let uid = OrderUid::from_parts(B256::repeat_byte(0), Address(owner), 123);
    let order = Order {
        uid,
        sell_token: Address::repeat_byte(3),
        buy_token: Address::repeat_byte(4),
        sell_amount: U256::from_u64(1),
        full_sell_amount: U256::from_u64(1),
        buy_amount: U256::from_u64(1),
        full_buy_amount: U256::from_u64(1),
        fee_policies: None,
        valid_to: 123,
        kind: auction::Kind::Sell,
        receiver: None,
        owner: Address(owner),
        partially_fillable: false,
        pre_interactions: vec![],
        post_interactions: vec![],
        sell_token_source: auction::SellTokenSource::Erc20,
        buy_token_destination: auction::BuyTokenDestination::Erc20,
        class: auction::Class::Market,
        app_data: B256::repeat_byte(0),
        signing_scheme: auction::SigningScheme::Eip712,
        signature: Bytes(vec![]),
    };
    let auction = Auction {
        id: Some(9008466),
        tokens: vec![],
        orders: vec![order],
        liquidity: vec![],
        effective_gas_price: U256::zero(),
        deadline: Timestamp::default(),
        surplus_capturing_jit_order_owners: vec![],
    };
    let id_text = Auction::id_to_wire(auction.id).unwrap();
    assert_eq!(Auction::id_from_wire(Some(&id_text)), Ok(Some(9008466)));
    let kind_text = auction.orders[0].kind.wire_name();
    assert_eq!(kind_text, "sell");
    assert_eq!(auction::Kind::from_wire(kind_text), Ok(auction::Kind::Sell));
    let uid_text = auction.orders[0].uid.to_hex();
    let back = OrderUid::from_hex(&uid_text).unwrap();
    assert_eq!(back.parts(), (B256::repeat_byte(0), Address(owner), 123));
}

#[test]
fn timestamps_within_range_are_always_written() {
    let far = Timestamp { seconds: WRITABLE_SECONDS, nanos: 999_999_999 };
    assert!(far.to_wire().is_some());
    let early = Timestamp { seconds: -WRITABLE_SECONDS, nanos: 0 };
    assert!(early.to_wire().is_some());
    let leap = Timestamp { seconds: 59, nanos: 1_500_000_000 };
    assert!(leap.to_wire().is_some());
    assert_eq!(Timestamp { seconds: i64::MAX, nanos: 0 }.to_wire(), None);
    assert_eq!(Timestamp { seconds: 0, nanos: 1_500_000_000 }.to_wire(), None);
}

fn fee() -> Decimal {
    Decimal::from_wire("0.003").unwrap()
}

#[test]
fn liquidity_maps_have_unique_keys() {
    assert!(has_distinct_ticks(&vec![(1, 5), (-1, 5)]));
    assert!(!has_distinct_ticks(&vec![(1, 5), (2, 5), (1, -5)]));
    let a = Address::repeat_byte(1);
    let reserve = || ConstantProductReserve { balance: U256::from_u64(10) };
    let pool = |tokens: Vec<(Address, ConstantProductReserve)>| {
        Liquidity::ConstantProduct(ConstantProductPool {
            id: "0".to_string(),
            address: a,
            router: a,
            gas_estimate: U256::zero(),
            tokens,
            fee: fee(),
        })
    };
    let good = pool(vec![(a, reserve()), (Address::repeat_byte(2), reserve())]);
    let bad = pool(vec![(a, reserve()), (a, reserve())]);
    assert!(good.has_unique_keys());
    assert!(!bad.has_unique_keys());
    let cl = Liquidity::ConcentratedLiquidity(ConcentratedLiquidityPool {
        id: "1".to_string(),
        address: a,
        router: a,
        gas_estimate: U256::zero(),
        tokens: vec![a],
        sqrt_price: U256::zero(),
        liquidity: 0,
        tick: 0,
        liquidity_net: vec![(3, 1), (3, 2)],
        fee: fee(),
    });
    assert!(!cl.has_unique_keys());
    let mut auction = Auction {
        id: None,
        tokens: vec![],
        orders: vec![],
        liquidity: vec![good],
        effective_gas_price: U256::zero(),
        deadline: Timestamp::default(),
        surplus_capturing_jit_order_owners: vec![],
    };
    assert!(auction.has_unique_keys());
    auction.liquidity.push(bad);
    assert!(!auction.has_unique_keys());
}
