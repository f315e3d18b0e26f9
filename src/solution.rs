use vstd::prelude::*;
use crate::error::CodecError;
use crate::order_uid::OrderUid;
use crate::primitives::{distinct, has_distinct_keys, key_bytes, Address, Bytes, B256};
use crate::uint::U256;
use crate::json::{get_member, object_member, read_tag, read_u64, tag_of, u64_of, Json};
use crate::wire::str_eq;

verus! {

/// Direction of a just-in-time order.
#[derive(Debug, Clone, Copy, PartialEq, Eq, Hash, Structural)]
pub enum Kind {
    Sell,
    Buy,
}

impl Kind {
    pub open spec fn name(self) -> Seq<char> {
        match self {
            Kind::Sell => "sell"@,
            Kind::Buy => "buy"@,
        }
    }

    pub open spec fn named(s: Seq<char>) -> Option<Kind> {
        if s == "sell"@ {
            Some(Kind::Sell)
        } else if s == "buy"@ {
            Some(Kind::Buy)
        } else {
            None
        }
    }

    /// The wire name.
    pub fn wire_name(&self) -> (r: &'static str)
        ensures
            r@ == self.name(),
    {
        match self {
            Kind::Sell => "sell",
            Kind::Buy => "buy",
        }
    }

    /// Reads a wire name; any other text is an unknown variant.
    pub fn from_wire(s: &str) -> (r: Result<Kind, CodecError>)
        ensures
            match Kind::named(s@) {
                Some(k) => r == Ok::<Kind, CodecError>(k),
                None => r matches Err(CodecError::UnknownVariant(t)) && t@ == s@,
            },
    {
        if str_eq(s, "sell") {
            Ok(Kind::Sell)
        } else if str_eq(s, "buy") {
            Ok(Kind::Buy)
        } else {
            Err(CodecError::UnknownVariant(s.to_string()))
        }
    }

    /// Each direction is read back from its wire name, and a wire name is read
    /// only as the direction that it names.
    pub proof fn lemma_name_round_trip(k: Kind, s: Seq<char>)
        ensures
            Kind::named(k.name()) == Some(k),
            Kind::named(s) matches Some(j) ==> j.name() == s,
    {
        reveal_strlit("sell");
        reveal_strlit("buy");
        assert("sell"@.len() != "buy"@.len());
    }
}

/// Where the sold tokens of a just-in-time order are drawn from.
#[derive(Debug, Clone, Copy, PartialEq, Eq, Hash, Structural)]
pub enum SellTokenBalance {
    Erc20,
    Internal,
    External,
}

impl SellTokenBalance {
    pub open spec fn name(self) -> Seq<char> {
        match self {
            SellTokenBalance::Erc20 => "erc20"@,
            SellTokenBalance::Internal => "internal"@,
            SellTokenBalance::External => "external"@,
        }
    }

    pub open spec fn named(s: Seq<char>) -> Option<SellTokenBalance> {
        if s == "erc20"@ {
            Some(SellTokenBalance::Erc20)
        } else if s == "internal"@ {
            Some(SellTokenBalance::Internal)
        } else if s == "external"@ {
            Some(SellTokenBalance::External)
        } else {
            None
        }
    }

    /// The wire name.
    pub fn wire_name(&self) -> (r: &'static str)
        ensures
            r@ == self.name(),
    {
        match self {
            SellTokenBalance::Erc20 => "erc20",
            SellTokenBalance::Internal => "internal",
            SellTokenBalance::External => "external",
        }
    }

    /// Reads a wire name; any other text is an unknown variant.
    pub fn from_wire(s: &str) -> (r: Result<SellTokenBalance, CodecError>)
        ensures
            match SellTokenBalance::named(s@) {
                Some(k) => r == Ok::<SellTokenBalance, CodecError>(k),
                None => r matches Err(CodecError::UnknownVariant(t)) && t@ == s@,
            },
    {
        if str_eq(s, "erc20") {
            Ok(SellTokenBalance::Erc20)
        } else if str_eq(s, "internal") {
            Ok(SellTokenBalance::Internal)
        } else if str_eq(s, "external") {
            Ok(SellTokenBalance::External)
        } else {
            Err(CodecError::UnknownVariant(s.to_string()))
        }
    }

    /// Each balance is read back from its wire name, and a wire name is read
    /// only as the balance that it names.
    pub proof fn lemma_name_round_trip(k: SellTokenBalance, s: Seq<char>)
        ensures
            SellTokenBalance::named(k.name()) == Some(k),
            SellTokenBalance::named(s) matches Some(j) ==> j.name() == s,
    {
        reveal_strlit("erc20");
        reveal_strlit("internal");
        reveal_strlit("external");
        assert("erc20"@.len() != "internal"@.len());
        assert("erc20"@.len() != "external"@.len());
        assert("internal"@[0] != "external"@[0]);
    }
}

/// Where the bought tokens of a just-in-time order are paid to.
#[derive(Debug, Clone, Copy, PartialEq, Eq, Hash, Structural)]
pub enum BuyTokenBalance {
    Erc20,
    Internal,
}

impl BuyTokenBalance {
    pub open spec fn name(self) -> Seq<char> {
        match self {
            BuyTokenBalance::Erc20 => "erc20"@,
            BuyTokenBalance::Internal => "internal"@,
        }
    }

    pub open spec fn named(s: Seq<char>) -> Option<BuyTokenBalance> {
        if s == "erc20"@ {
            Some(BuyTokenBalance::Erc20)
        } else if s == "internal"@ {
            Some(BuyTokenBalance::Internal)
        } else {
            None
        }
    }

    /// The wire name.
    pub fn wire_name(&self) -> (r: &'static str)
        ensures
            r@ == self.name(),
    {
        match self {
            BuyTokenBalance::Erc20 => "erc20",
            BuyTokenBalance::Internal => "internal",
        }
    }

    /// Reads a wire name; any other text is an unknown variant.
    pub fn from_wire(s: &str) -> (r: Result<BuyTokenBalance, CodecError>)
        ensures
            match BuyTokenBalance::named(s@) {
                Some(k) => r == Ok::<BuyTokenBalance, CodecError>(k),
                None => r matches Err(CodecError::UnknownVariant(t)) && t@ == s@,
            },
    {
        if str_eq(s, "erc20") {
            Ok(BuyTokenBalance::Erc20)
        } else if str_eq(s, "internal") {
            Ok(BuyTokenBalance::Internal)
        } else {
            Err(CodecError::UnknownVariant(s.to_string()))
        }
    }

    /// Each balance is read back from its wire name, and a wire name is read
    /// only as the balance that it names.
    pub proof fn lemma_name_round_trip(k: BuyTokenBalance, s: Seq<char>)
        ensures
            BuyTokenBalance::named(k.name()) == Some(k),
            BuyTokenBalance::named(s) matches Some(j) ==> j.name() == s,
    {
        reveal_strlit("erc20");
        reveal_strlit("internal");
        assert("erc20"@.len() != "internal"@.len());
    }
}

/// How a just-in-time order was signed.
#[derive(Debug, Clone, Copy, PartialEq, Eq, Hash, Structural)]
pub enum SigningScheme {
    Eip712,
    EthSign,
    PreSign,
    Eip1271,
}

impl SigningScheme {
    pub open spec fn name(self) -> Seq<char> {
        match self {
            SigningScheme::Eip712 => "eip712"@,
            SigningScheme::EthSign => "ethSign"@,
            SigningScheme::PreSign => "preSign"@,
            SigningScheme::Eip1271 => "eip1271"@,
        }
    }

    pub open spec fn named(s: Seq<char>) -> Option<SigningScheme> {
        if s == "eip712"@ {
            Some(SigningScheme::Eip712)
        } else if s == "ethSign"@ {
            Some(SigningScheme::EthSign)
        } else if s == "preSign"@ {
            Some(SigningScheme::PreSign)
        } else if s == "eip1271"@ {
            Some(SigningScheme::Eip1271)
        } else {
            None
        }
    }

    /// The wire name.
    pub fn wire_name(&self) -> (r: &'static str)
        ensures
            r@ == self.name(),
    {
        match self {
            SigningScheme::Eip712 => "eip712",
            SigningScheme::EthSign => "ethSign",
            SigningScheme::PreSign => "preSign",
            SigningScheme::Eip1271 => "eip1271",
        }
    }

    /// Reads a wire name; any other text is an unknown variant.
    pub fn from_wire(s: &str) -> (r: Result<SigningScheme, CodecError>)
        ensures
            match SigningScheme::named(s@) {
                Some(k) => r == Ok::<SigningScheme, CodecError>(k),
                None => r matches Err(CodecError::UnknownVariant(t)) && t@ == s@,
            },
    {
        if str_eq(s, "eip712") {
            Ok(SigningScheme::Eip712)
        } else if str_eq(s, "ethSign") {
            Ok(SigningScheme::EthSign)
        } else if str_eq(s, "preSign") {
            Ok(SigningScheme::PreSign)
        } else if str_eq(s, "eip1271") {
            Ok(SigningScheme::Eip1271)
        } else {
            Err(CodecError::UnknownVariant(s.to_string()))
        }
    }

    /// Each scheme is read back from its wire name, and a wire name is read
    /// only as the scheme that it names.
    pub proof fn lemma_name_round_trip(k: SigningScheme, s: Seq<char>)
        ensures
            SigningScheme::named(k.name()) == Some(k),
            SigningScheme::named(s) matches Some(j) ==> j.name() == s,
    {
        reveal_strlit("eip712");
        reveal_strlit("ethSign");
        reveal_strlit("preSign");
        reveal_strlit("eip1271");
        assert("eip712"@.len() != "ethSign"@.len());
        assert("eip712"@.len() != "preSign"@.len());
        assert("eip712"@.len() != "eip1271"@.len());
        assert("ethSign"@[0] != "preSign"@[0]);
        assert("ethSign"@[1] != "eip1271"@[1]);
        assert("preSign"@[0] != "eip1271"@[0]);
    }
}

/// The discriminant of a trade.
#[derive(Debug, Clone, Copy, PartialEq, Eq, Hash, Structural)]
pub enum TradeKind {
    Fulfillment,
    Jit,
}

impl TradeKind {
    pub open spec fn name(self) -> Seq<char> {
        match self {
            TradeKind::Fulfillment => "fulfillment"@,
            TradeKind::Jit => "jit"@,
        }
    }

    pub open spec fn named(s: Seq<char>) -> Option<TradeKind> {
        if s == "fulfillment"@ {
            Some(TradeKind::Fulfillment)
        } else if s == "jit"@ {
            Some(TradeKind::Jit)
        } else {
            None
        }
    }

    /// The wire name.
    pub fn wire_name(&self) -> (r: &'static str)
        ensures
            r@ == self.name(),
    {
        match self {
            TradeKind::Fulfillment => "fulfillment",
            TradeKind::Jit => "jit",
        }
    }

    /// Reads a wire name; any other text is an unknown variant.
    pub fn from_wire(s: &str) -> (r: Result<TradeKind, CodecError>)
        ensures
            match TradeKind::named(s@) {
                Some(k) => r == Ok::<TradeKind, CodecError>(k),
                None => r matches Err(CodecError::UnknownVariant(t)) && t@ == s@,
            },
    {
        if str_eq(s, "fulfillment") {
            Ok(TradeKind::Fulfillment)
        } else if str_eq(s, "jit") {
            Ok(TradeKind::Jit)
        } else {
            Err(CodecError::UnknownVariant(s.to_string()))
        }
    }

    /// Each kind is read back from its wire name, and a wire name is read
    /// only as the kind that it names.
    pub proof fn lemma_name_round_trip(k: TradeKind, s: Seq<char>)
        ensures
            TradeKind::named(k.name()) == Some(k),
            TradeKind::named(s) matches Some(j) ==> j.name() == s,
    {
        reveal_strlit("fulfillment");
        reveal_strlit("jit");
        assert("fulfillment"@.len() != "jit"@.len());
    }
}

/// The discriminant of an interaction.
#[derive(Debug, Clone, Copy, PartialEq, Eq, Hash, Structural)]
pub enum InteractionKind {
    Liquidity,
    Custom,
}

impl InteractionKind {
    pub open spec fn name(self) -> Seq<char> {
        match self {
            InteractionKind::Liquidity => "liquidity"@,
            InteractionKind::Custom => "custom"@,
        }
    }

    pub open spec fn named(s: Seq<char>) -> Option<InteractionKind> {
        if s == "liquidity"@ {
            Some(InteractionKind::Liquidity)
        } else if s == "custom"@ {
            Some(InteractionKind::Custom)
        } else {
            None
        }
    }

    /// The wire name.
    pub fn wire_name(&self) -> (r: &'static str)
        ensures
            r@ == self.name(),
    {
        match self {
            InteractionKind::Liquidity => "liquidity",
            InteractionKind::Custom => "custom",
        }
    }

    /// Reads a wire name; any other text is an unknown variant.
    pub fn from_wire(s: &str) -> (r: Result<InteractionKind, CodecError>)
        ensures
            match InteractionKind::named(s@) {
                Some(k) => r == Ok::<InteractionKind, CodecError>(k),
                None => r matches Err(CodecError::UnknownVariant(t)) && t@ == s@,
            },
    {
        if str_eq(s, "liquidity") {
            Ok(InteractionKind::Liquidity)
        } else if str_eq(s, "custom") {
            Ok(InteractionKind::Custom)
        } else {
            Err(CodecError::UnknownVariant(s.to_string()))
        }
    }

    /// Each kind is read back from its wire name, and a wire name is read
    /// only as the kind that it names.
    pub proof fn lemma_name_round_trip(k: InteractionKind, s: Seq<char>)
        ensures
            InteractionKind::named(k.name()) == Some(k),
            InteractionKind::named(s) matches Some(j) ==> j.name() == s,
    {
        reveal_strlit("liquidity");
        reveal_strlit("custom");
        assert("liquidity"@.len() != "custom"@.len());
    }
}

impl Default for SellTokenBalance {
    fn default() -> (r: SellTokenBalance)
        ensures
            r == SellTokenBalance::Erc20,
    {
        SellTokenBalance::Erc20
    }
}

impl SellTokenBalance {
    /// Reads the member `sellTokenBalance` of an order object; where it is absent
    /// the balance is `erc20`.
    pub fn from_object(j: &Json) -> (r: Result<SellTokenBalance, CodecError>)
        ensures
            match object_member(*j, "sellTokenBalance"@) {
                None => r == Ok::<SellTokenBalance, CodecError>(SellTokenBalance::Erc20),
                Some(Json::Text(t)) => match SellTokenBalance::named(t@) {
                    Some(k) => r == Ok::<SellTokenBalance, CodecError>(k),
                    None => r matches Err(CodecError::UnknownVariant(u)) && u@ == t@,
                },
                Some(_) => r == Err::<SellTokenBalance, CodecError>(CodecError::StructuralMismatch),
            },
    {
        match get_member(j, "sellTokenBalance") {
            None => Ok(SellTokenBalance::Erc20),
            Some(Json::Text(t)) => SellTokenBalance::from_wire(t.as_str()),
            Some(_) => Err(CodecError::StructuralMismatch),
        }
    }

    /// Reads the field where it is present; where it is absent the balance
    /// is `erc20`.
    pub fn from_wire_or_default(s: Option<&str>) -> (r: Result<SellTokenBalance, CodecError>)
        ensures
            match s {
                None => r == Ok::<SellTokenBalance, CodecError>(SellTokenBalance::Erc20),
                Some(t) => match SellTokenBalance::named(t@) {
                    Some(k) => r == Ok::<SellTokenBalance, CodecError>(k),
                    None => r matches Err(CodecError::UnknownVariant(u)) && u@ == t@,
                },
            },
    {
        match s {
            None => Ok(SellTokenBalance::Erc20),
            Some(t) => SellTokenBalance::from_wire(t),
        }
    }
}

impl Default for BuyTokenBalance {
    fn default() -> (r: BuyTokenBalance)
        ensures
            r == BuyTokenBalance::Erc20,
    {
        BuyTokenBalance::Erc20
    }
}

impl BuyTokenBalance {
    /// Reads the member `buyTokenBalance` of an order object; where it is absent
    /// the balance is `erc20`.
    pub fn from_object(j: &Json) -> (r: Result<BuyTokenBalance, CodecError>)
        ensures
            match object_member(*j, "buyTokenBalance"@) {
                None => r == Ok::<BuyTokenBalance, CodecError>(BuyTokenBalance::Erc20),
                Some(Json::Text(t)) => match BuyTokenBalance::named(t@) {
                    Some(k) => r == Ok::<BuyTokenBalance, CodecError>(k),
                    None => r matches Err(CodecError::UnknownVariant(u)) && u@ == t@,
                },
                Some(_) => r == Err::<BuyTokenBalance, CodecError>(CodecError::StructuralMismatch),
            },
    {
        match get_member(j, "buyTokenBalance") {
            None => Ok(BuyTokenBalance::Erc20),
            Some(Json::Text(t)) => BuyTokenBalance::from_wire(t.as_str()),
            Some(_) => Err(CodecError::StructuralMismatch),
        }
    }

    /// Reads the field where it is present; where it is absent the balance
    /// is `erc20`.
    pub fn from_wire_or_default(s: Option<&str>) -> (r: Result<BuyTokenBalance, CodecError>)
        ensures
            match s {
                None => r == Ok::<BuyTokenBalance, CodecError>(BuyTokenBalance::Erc20),
                Some(t) => match BuyTokenBalance::named(t@) {
                    Some(k) => r == Ok::<BuyTokenBalance, CodecError>(k),
                    None => r matches Err(CodecError::UnknownVariant(u)) && u@ == t@,
                },
            },
    {
        match s {
            None => Ok(BuyTokenBalance::Erc20),
            Some(t) => BuyTokenBalance::from_wire(t),
        }
    }
}

impl TradeKind {
    /// Reads the discriminant of a trade object.
    pub fn from_json(j: &Json) -> (r: Result<TradeKind, CodecError>)
        ensures
            match tag_of(*j) {
                None => r matches Err(CodecError::MissingRequiredField(f)) && f@ == "kind"@,
                Some(t) => match TradeKind::named(t) {
                    Some(k) => r == Ok::<TradeKind, CodecError>(k),
                    None => r matches Err(CodecError::UnknownVariant(u)) && u@ == t,
                },
            },
    {
        match read_tag(j) {
            Ok(t) => TradeKind::from_wire(t),
            Err(e) => Err(e),
        }
    }
}

impl InteractionKind {
    /// Reads the discriminant of an interaction object.
    pub fn from_json(j: &Json) -> (r: Result<InteractionKind, CodecError>)
        ensures
            match tag_of(*j) {
                None => r matches Err(CodecError::MissingRequiredField(f)) && f@ == "kind"@,
                Some(t) => match InteractionKind::named(t) {
                    Some(k) => r == Ok::<InteractionKind, CodecError>(k),
                    None => r matches Err(CodecError::UnknownVariant(u)) && u@ == t,
                },
            },
    {
        match read_tag(j) {
            Ok(t) => InteractionKind::from_wire(t),
            Err(e) => Err(e),
        }
    }
}

/// The solutions that a solver proposes for one auction.
#[derive(Debug, Clone, Default)]
pub struct Solutions {
    pub solutions: Vec<Solution>,
}

/// A proposed settlement.
#[derive(Debug, Clone)]
pub struct Solution {
    pub id: u64,
    /// Clearing price by token address; the addresses are unique.
    pub prices: Vec<(Address, U256)>,
    pub trades: Vec<Trade>,
    pub pre_interactions: Vec<Call>,
    pub interactions: Vec<Interaction>,
    pub post_interactions: Vec<Call>,
    /// Left off the wire when absent.
    pub gas: Option<u64>,
}

/// The sequence of calls that an optional list stands for: absent is empty.
pub open spec fn calls_or_empty(c: Option<Vec<Call>>) -> Seq<Call> {
    match c {
        Some(v) => v@,
        None => Seq::empty(),
    }
}

impl Solution {
    /// Reads the member `gas` of a solution object: absent or null is no
    /// estimate.
    pub fn gas_from_object(j: &Json) -> (r: Result<Option<u64>, CodecError>)
        ensures
            match object_member(*j, "gas"@) {
                None => r == Ok::<Option<u64>, CodecError>(None),
                Some(Json::Null) => r == Ok::<Option<u64>, CodecError>(None),
                Some(v) => match u64_of(v) {
                    Some(n) => r == Ok::<Option<u64>, CodecError>(Some(n)),
                    None => r == Err::<Option<u64>, CodecError>(CodecError::InvalidInteger),
                },
            },
    {
        match get_member(j, "gas") {
            None => Ok(None),
            Some(Json::Null) => Ok(None),
            Some(v) => match read_u64(v) {
                Some(n) => Ok(Some(n)),
                None => Err(CodecError::InvalidInteger),
            },
        }
    }

    /// Whether no token address has two prices.
    pub fn has_unique_prices(&self) -> (r: bool)
        ensures
            r == distinct(key_bytes(self.prices@)),
    {
        has_distinct_keys(&self.prices)
    }

    /// Builds a solution from its members as they were read, applying the
    /// defaults for those that were absent: no pre-interactions, no
    /// post-interactions, no gas.
    pub fn from_members(
        id: u64,
        prices: Vec<(Address, U256)>,
        trades: Vec<Trade>,
        pre_interactions: Option<Vec<Call>>,
        interactions: Vec<Interaction>,
        post_interactions: Option<Vec<Call>>,
        gas: Option<u64>,
    ) -> (r: Solution)
        ensures
            r.id == id,
            r.prices@ == prices@,
            r.trades@ == trades@,
            r.pre_interactions@ == calls_or_empty(pre_interactions),
            r.interactions@ == interactions@,
            r.post_interactions@ == calls_or_empty(post_interactions),
            r.gas == gas,
    {
        let pre = match pre_interactions {
            Some(v) => v,
            None => Vec::new(),
        };
        let post = match post_interactions {
            Some(v) => v,
            None => Vec::new(),
        };
        Solution {
            id,
            prices,
            trades,
            pre_interactions: pre,
            interactions,
            post_interactions: post,
            gas,
        }
    }
}

/// A trade of a solution.
#[derive(Debug, Clone)]
pub enum Trade {
    Fulfillment(Fulfillment),
    Jit(JitTrade),
}

impl Trade {
    pub open spec fn spec_kind(&self) -> TradeKind {
        match self {
            Trade::Fulfillment(_) => TradeKind::Fulfillment,
            Trade::Jit(_) => TradeKind::Jit,
        }
    }

    /// The discriminant that this trade carries on the wire.
    pub fn kind(&self) -> (r: TradeKind)
        ensures
            r == self.spec_kind(),
    {
        match self {
            Trade::Fulfillment(_) => TradeKind::Fulfillment,
            Trade::Jit(_) => TradeKind::Jit,
        }
    }
}

/// A trade that executes an order of the auction.
#[derive(Debug, Clone)]
pub struct Fulfillment {
    pub order: OrderUid,
    pub executed_amount: U256,
    /// Left off the wire when absent.
    pub fee: Option<U256>,
}

/// A trade that executes an order given in full in the solution.
#[derive(Debug, Clone)]
pub struct JitTrade {
    pub order: JitOrder,
    pub executed_amount: U256,
    pub fee: Option<U256>,
}

/// An order that a solver brings in at solution time.
#[derive(Debug, Clone)]
pub struct JitOrder {
    pub sell_token: Address,
    pub buy_token: Address,
    pub receiver: Address,
    pub sell_amount: U256,
    pub buy_amount: U256,
    pub valid_to: u32,
    pub app_data: B256,
    pub kind: Kind,
    pub sell_token_balance: SellTokenBalance,
    pub buy_token_balance: BuyTokenBalance,
    pub signing_scheme: SigningScheme,
    pub signature: Bytes,
}

/// An interaction of a solution.
#[derive(Debug, Clone)]
pub enum Interaction {
    Liquidity(LiquidityInteraction),
    Custom(CustomInteraction),
}

impl Interaction {
    pub open spec fn spec_kind(&self) -> InteractionKind {
        match self {
            Interaction::Liquidity(_) => InteractionKind::Liquidity,
            Interaction::Custom(_) => InteractionKind::Custom,
        }
    }

    /// The discriminant that this interaction carries on the wire.
    pub fn kind(&self) -> (r: InteractionKind)
        ensures
            r == self.spec_kind(),
    {
        match self {
            Interaction::Liquidity(_) => InteractionKind::Liquidity,
            Interaction::Custom(_) => InteractionKind::Custom,
        }
    }
}

/// A call before or after the settlement; on the wire it carries a `kind`
/// member too.
#[derive(Debug, Clone)]
pub struct Call {
    pub target: Address,
    pub value: U256,
    pub calldata: Bytes,
}

/// A swap through a liquidity source of the auction.
#[derive(Debug, Clone)]
pub struct LiquidityInteraction {
    pub internalize: bool,
    pub id: String,
    pub input_token: Address,
    pub output_token: Address,
    pub input_amount: U256,
    pub output_amount: U256,
}

/// An arbitrary call, with the token movements that it declares.
#[derive(Debug, Clone)]
pub struct CustomInteraction {
    pub internalize: bool,
    pub target: Address,
    pub value: U256,
    pub calldata: Bytes,
    pub allowances: Vec<Allowance>,
    pub inputs: Vec<Asset>,
    pub outputs: Vec<Asset>,
}

/// An interaction that can be executed as part of an order's pre- or
/// post-interactions.
#[derive(Debug, Clone)]
pub struct OrderInteraction {
    pub target: Address,
    pub value: U256,
    pub calldata: Bytes,
}

#[derive(Debug, Clone)]
pub struct Asset {
    pub token: Address,
    pub amount: U256,
}

#[derive(Debug, Clone)]
pub struct Allowance {
    pub token: Address,
    pub spender: Address,
    pub amount: U256,
}

} // verus!
