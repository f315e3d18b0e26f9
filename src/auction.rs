use vstd::prelude::*;
use crate::error::CodecError;
use crate::order_uid::OrderUid;
use crate::primitives::{distinct, has_distinct_keys, key_bytes, Address, Bytes, B256};
use crate::uint::{i64_from_decimal, i64_to_decimal, is_signed_decimal, signed_text, signed_value, U256};
use crate::values::{Decimal, Timestamp};
use crate::json::{read_tag, tag_of, Json};
use crate::wire::str_eq;

verus! {

/// Where the bought tokens are paid to the receiver when an order is
/// filled.
#[derive(Debug, Clone, Copy, PartialEq, Eq, Hash, Structural)]
pub enum BuyTokenDestination {
    /// Pay trade proceeds as an ERC20 token transfer
    Erc20,
    /// Pay trade proceeds as a Vault internal balance transfer
    Internal,
}

impl BuyTokenDestination {
    pub open spec fn name(self) -> Seq<char> {
        match self {
            BuyTokenDestination::Erc20 => "erc20"@,
            BuyTokenDestination::Internal => "internal"@,
        }
    }

    pub open spec fn named(s: Seq<char>) -> Option<BuyTokenDestination> {
        if s == "erc20"@ {
            Some(BuyTokenDestination::Erc20)
        } else if s == "internal"@ {
            Some(BuyTokenDestination::Internal)
        } else {
            None
        }
    }

    /// The wire name.
    pub fn wire_name(&self) -> (r: &'static str)
        ensures
            r@ == self.name(),
    {
        match self {
            BuyTokenDestination::Erc20 => "erc20",
            BuyTokenDestination::Internal => "internal",
        }
    }

    /// Reads a wire name; any other text is an unknown variant.
    pub fn from_wire(s: &str) -> (r: Result<BuyTokenDestination, CodecError>)
        ensures
            match BuyTokenDestination::named(s@) {
                Some(k) => r == Ok::<BuyTokenDestination, CodecError>(k),
                None => r matches Err(CodecError::UnknownVariant(t)) && t@ == s@,
            },
    {
        if str_eq(s, "erc20") {
            Ok(BuyTokenDestination::Erc20)
        } else if str_eq(s, "internal") {
            Ok(BuyTokenDestination::Internal)
        } else {
            Err(CodecError::UnknownVariant(s.to_string()))
        }
    }

    /// Each destination is read back from its wire name, and a wire name is read
    /// only as the destination that it names.
    pub proof fn lemma_name_round_trip(k: BuyTokenDestination, s: Seq<char>)
        ensures
            BuyTokenDestination::named(k.name()) == Some(k),
            BuyTokenDestination::named(s) matches Some(j) ==> j.name() == s,
    {
        reveal_strlit("erc20");
        reveal_strlit("internal");
        assert("erc20"@.len() != "internal"@.len());
    }
}

/// Where the sold tokens are drawn from when an order is filled.
#[derive(Debug, Clone, Copy, PartialEq, Eq, Hash, Structural)]
pub enum SellTokenSource {
    /// Direct ERC20 allowances to the Vault relayer contract
    Erc20,
    /// Internal balances to the Vault with GPv2 relayer approval
    External,
    /// ERC20 allowances to the Vault with GPv2 relayer approval
    Internal,
}

impl SellTokenSource {
    pub open spec fn name(self) -> Seq<char> {
        match self {
            SellTokenSource::Erc20 => "erc20"@,
            SellTokenSource::External => "external"@,
            SellTokenSource::Internal => "internal"@,
        }
    }

    pub open spec fn named(s: Seq<char>) -> Option<SellTokenSource> {
        if s == "erc20"@ {
            Some(SellTokenSource::Erc20)
        } else if s == "external"@ {
            Some(SellTokenSource::External)
        } else if s == "internal"@ {
            Some(SellTokenSource::Internal)
        } else {
            None
        }
    }

    /// The wire name.
    pub fn wire_name(&self) -> (r: &'static str)
        ensures
            r@ == self.name(),
    {
        match self {
            SellTokenSource::Erc20 => "erc20",
            SellTokenSource::External => "external",
            SellTokenSource::Internal => "internal",
        }
    }

    /// Reads a wire name; any other text is an unknown variant.
    pub fn from_wire(s: &str) -> (r: Result<SellTokenSource, CodecError>)
        ensures
            match SellTokenSource::named(s@) {
                Some(k) => r == Ok::<SellTokenSource, CodecError>(k),
                None => r matches Err(CodecError::UnknownVariant(t)) && t@ == s@,
            },
    {
        if str_eq(s, "erc20") {
            Ok(SellTokenSource::Erc20)
        } else if str_eq(s, "external") {
            Ok(SellTokenSource::External)
        } else if str_eq(s, "internal") {
            Ok(SellTokenSource::Internal)
        } else {
            Err(CodecError::UnknownVariant(s.to_string()))
        }
    }

    /// Each source is read back from its wire name, and a wire name is read
    /// only as the source that it names.
    pub proof fn lemma_name_round_trip(k: SellTokenSource, s: Seq<char>)
        ensures
            SellTokenSource::named(k.name()) == Some(k),
            SellTokenSource::named(s) matches Some(j) ==> j.name() == s,
    {
        reveal_strlit("erc20");
        reveal_strlit("external");
        reveal_strlit("internal");
        assert("erc20"@.len() != "external"@.len());
        assert("erc20"@.len() != "internal"@.len());
        assert("external"@[0] != "internal"@[0]);
    }
}

/// How an order of the auction was signed.
#[derive(Debug, Clone, Copy, PartialEq, Eq, Hash, Structural)]
pub enum SigningScheme {
    Eip712,
    EthSign,
    Eip1271,
    PreSign,
}

impl SigningScheme {
    pub open spec fn name(self) -> Seq<char> {
        match self {
            SigningScheme::Eip712 => "eip712"@,
            SigningScheme::EthSign => "ethsign"@,
            SigningScheme::Eip1271 => "eip1271"@,
            SigningScheme::PreSign => "presign"@,
        }
    }

    pub open spec fn named(s: Seq<char>) -> Option<SigningScheme> {
        if s == "eip712"@ {
            Some(SigningScheme::Eip712)
        } else if s == "ethsign"@ {
            Some(SigningScheme::EthSign)
        } else if s == "eip1271"@ {
            Some(SigningScheme::Eip1271)
        } else if s == "presign"@ {
            Some(SigningScheme::PreSign)
        } else {
            None
        }
    }

    /// The wire name.
    pub fn wire_name(&self) -> (r: &'static str)
        ensures
            r@ == self.name(),
    {
        match self {
            SigningScheme::Eip712 => "eip712",
            SigningScheme::EthSign => "ethsign",
            SigningScheme::Eip1271 => "eip1271",
            SigningScheme::PreSign => "presign",
        }
    }

    /// Reads a wire name; any other text is an unknown variant.
    pub fn from_wire(s: &str) -> (r: Result<SigningScheme, CodecError>)
        ensures
            match SigningScheme::named(s@) {
                Some(k) => r == Ok::<SigningScheme, CodecError>(k),
                None => r matches Err(CodecError::UnknownVariant(t)) && t@ == s@,
            },
    {
        if str_eq(s, "eip712") {
            Ok(SigningScheme::Eip712)
        } else if str_eq(s, "ethsign") {
            Ok(SigningScheme::EthSign)
        } else if str_eq(s, "eip1271") {
            Ok(SigningScheme::Eip1271)
        } else if str_eq(s, "presign") {
            Ok(SigningScheme::PreSign)
        } else {
            Err(CodecError::UnknownVariant(s.to_string()))
        }
    }

    /// Each scheme is read back from its wire name, and a wire name is read
    /// only as the scheme that it names.
    pub proof fn lemma_name_round_trip(k: SigningScheme, s: Seq<char>)
        ensures
            SigningScheme::named(k.name()) == Some(k),
            SigningScheme::named(s) matches Some(j) ==> j.name() == s,
    {
        reveal_strlit("eip712");
        reveal_strlit("ethsign");
        reveal_strlit("eip1271");
        reveal_strlit("presign");
        assert("eip712"@.len() != "ethsign"@.len());
        assert("eip712"@.len() != "eip1271"@.len());
        assert("eip712"@.len() != "presign"@.len());
        assert("ethsign"@[1] != "eip1271"@[1]);
        assert("ethsign"@[0] != "presign"@[0]);
        assert("eip1271"@[0] != "presign"@[0]);
    }
}

/// Direction of an order.
#[derive(Debug, Clone, Copy, PartialEq, Eq, Hash, Structural)]
pub enum Kind {
    Sell,
    Buy,
}

impl Kind {
    pub open spec fn name(self) -> Seq<char> {
        match self {
            Kind::Sell => "sell"@,
            Kind::Buy => "buy"@,
        }
    }

    pub open spec fn named(s: Seq<char>) -> Option<Kind> {
        if s == "sell"@ {
            Some(Kind::Sell)
        } else if s == "buy"@ {
            Some(Kind::Buy)
        } else {
            None
        }
    }

    /// The wire name.
    pub fn wire_name(&self) -> (r: &'static str)
        ensures
            r@ == self.name(),
    {
        match self {
            Kind::Sell => "sell",
            Kind::Buy => "buy",
        }
    }

    /// Reads a wire name; any other text is an unknown variant.
    pub fn from_wire(s: &str) -> (r: Result<Kind, CodecError>)
        ensures
            match Kind::named(s@) {
                Some(k) => r == Ok::<Kind, CodecError>(k),
                None => r matches Err(CodecError::UnknownVariant(t)) && t@ == s@,
            },
    {
        if str_eq(s, "sell") {
            Ok(Kind::Sell)
        } else if str_eq(s, "buy") {
            Ok(Kind::Buy)
        } else {
            Err(CodecError::UnknownVariant(s.to_string()))
        }
    }

    /// Each direction is read back from its wire name, and a wire name is read
    /// only as the direction that it names.
    pub proof fn lemma_name_round_trip(k: Kind, s: Seq<char>)
        ensures
            Kind::named(k.name()) == Some(k),
            Kind::named(s) matches Some(j) ==> j.name() == s,
    {
        reveal_strlit("sell");
        reveal_strlit("buy");
        assert("sell"@.len() != "buy"@.len());
    }
}

/// Whether an order is a market order or a limit order.
#[derive(Debug, Clone, Copy, PartialEq, Eq, Hash, Structural)]
pub enum Class {
    Market,
    Limit,
}

impl Class {
    pub open spec fn name(self) -> Seq<char> {
        match self {
            Class::Market => "market"@,
            Class::Limit => "limit"@,
        }
    }

    pub open spec fn named(s: Seq<char>) -> Option<Class> {
        if s == "market"@ {
            Some(Class::Market)
        } else if s == "limit"@ {
            Some(Class::Limit)
        } else {
            None
        }
    }

    /// The wire name.
    pub fn wire_name(&self) -> (r: &'static str)
        ensures
            r@ == self.name(),
    {
        match self {
            Class::Market => "market",
            Class::Limit => "limit",
        }
    }

    /// Reads a wire name; any other text is an unknown variant.
    pub fn from_wire(s: &str) -> (r: Result<Class, CodecError>)
        ensures
            match Class::named(s@) {
                Some(k) => r == Ok::<Class, CodecError>(k),
                None => r matches Err(CodecError::UnknownVariant(t)) && t@ == s@,
            },
    {
        if str_eq(s, "market") {
            Ok(Class::Market)
        } else if str_eq(s, "limit") {
            Ok(Class::Limit)
        } else {
            Err(CodecError::UnknownVariant(s.to_string()))
        }
    }

    /// Each class is read back from its wire name, and a wire name is read
    /// only as the class that it names.
    pub proof fn lemma_name_round_trip(k: Class, s: Seq<char>)
        ensures
            Class::named(k.name()) == Some(k),
            Class::named(s) matches Some(j) ==> j.name() == s,
    {
        reveal_strlit("market");
        reveal_strlit("limit");
        assert("market"@.len() != "limit"@.len());
    }
}

/// Version of a weighted-product pool.
#[derive(Debug, Clone, Copy, PartialEq, Eq, Hash, Structural)]
pub enum WeightedProductVersion {
    V0,
    V3Plus,
}

impl WeightedProductVersion {
    pub open spec fn name(self) -> Seq<char> {
        match self {
            WeightedProductVersion::V0 => "v0"@,
            WeightedProductVersion::V3Plus => "v3Plus"@,
        }
    }

    pub open spec fn named(s: Seq<char>) -> Option<WeightedProductVersion> {
        if s == "v0"@ {
            Some(WeightedProductVersion::V0)
        } else if s == "v3Plus"@ {
            Some(WeightedProductVersion::V3Plus)
        } else {
            None
        }
    }

    /// The wire name.
    pub fn wire_name(&self) -> (r: &'static str)
        ensures
            r@ == self.name(),
    {
        match self {
            WeightedProductVersion::V0 => "v0",
            WeightedProductVersion::V3Plus => "v3Plus",
        }
    }

    /// Reads a wire name; any other text is an unknown variant.
    pub fn from_wire(s: &str) -> (r: Result<WeightedProductVersion, CodecError>)
        ensures
            match WeightedProductVersion::named(s@) {
                Some(k) => r == Ok::<WeightedProductVersion, CodecError>(k),
                None => r matches Err(CodecError::UnknownVariant(t)) && t@ == s@,
            },
    {
        if str_eq(s, "v0") {
            Ok(WeightedProductVersion::V0)
        } else if str_eq(s, "v3Plus") {
            Ok(WeightedProductVersion::V3Plus)
        } else {
            Err(CodecError::UnknownVariant(s.to_string()))
        }
    }

    /// Each version is read back from its wire name, and a wire name is read
    /// only as the version that it names.
    pub proof fn lemma_name_round_trip(k: WeightedProductVersion, s: Seq<char>)
        ensures
            WeightedProductVersion::named(k.name()) == Some(k),
            WeightedProductVersion::named(s) matches Some(j) ==> j.name() == s,
    {
        reveal_strlit("v0");
        reveal_strlit("v3Plus");
        assert("v0"@.len() != "v3Plus"@.len());
    }
}

/// The discriminant of a liquidity source.
#[derive(Debug, Clone, Copy, PartialEq, Eq, Hash, Structural)]
pub enum LiquidityKind {
    ConstantProduct,
    WeightedProduct,
    Stable,
    ConcentratedLiquidity,
    LimitOrder,
}

impl LiquidityKind {
    pub open spec fn name(self) -> Seq<char> {
        match self {
            LiquidityKind::ConstantProduct => "constantProduct"@,
            LiquidityKind::WeightedProduct => "weightedProduct"@,
            LiquidityKind::Stable => "stable"@,
            LiquidityKind::ConcentratedLiquidity => "concentratedLiquidity"@,
            LiquidityKind::LimitOrder => "limitOrder"@,
        }
    }

    pub open spec fn named(s: Seq<char>) -> Option<LiquidityKind> {
        if s == "constantProduct"@ {
            Some(LiquidityKind::ConstantProduct)
        } else if s == "weightedProduct"@ {
            Some(LiquidityKind::WeightedProduct)
        } else if s == "stable"@ {
            Some(LiquidityKind::Stable)
        } else if s == "concentratedLiquidity"@ {
            Some(LiquidityKind::ConcentratedLiquidity)
        } else if s == "limitOrder"@ {
            Some(LiquidityKind::LimitOrder)
        } else {
            None
        }
    }

    /// The wire name.
    pub fn wire_name(&self) -> (r: &'static str)
        ensures
            r@ == self.name(),
    {
        match self {
            LiquidityKind::ConstantProduct => "constantProduct",
            LiquidityKind::WeightedProduct => "weightedProduct",
            LiquidityKind::Stable => "stable",
            LiquidityKind::ConcentratedLiquidity => "concentratedLiquidity",
            LiquidityKind::LimitOrder => "limitOrder",
        }
    }

    /// Reads a wire name; any other text is an unknown variant.
    pub fn from_wire(s: &str) -> (r: Result<LiquidityKind, CodecError>)
        ensures
            match LiquidityKind::named(s@) {
                Some(k) => r == Ok::<LiquidityKind, CodecError>(k),
                None => r matches Err(CodecError::UnknownVariant(t)) && t@ == s@,
            },
    {
        if str_eq(s, "constantProduct") {
            Ok(LiquidityKind::ConstantProduct)
        } else if str_eq(s, "weightedProduct") {
            Ok(LiquidityKind::WeightedProduct)
        } else if str_eq(s, "stable") {
            Ok(LiquidityKind::Stable)
        } else if str_eq(s, "concentratedLiquidity") {
            Ok(LiquidityKind::ConcentratedLiquidity)
        } else if str_eq(s, "limitOrder") {
            Ok(LiquidityKind::LimitOrder)
        } else {
            Err(CodecError::UnknownVariant(s.to_string()))
        }
    }

    /// Each kind is read back from its wire name, and a wire name is read
    /// only as the kind that it names.
    pub proof fn lemma_name_round_trip(k: LiquidityKind, s: Seq<char>)
        ensures
            LiquidityKind::named(k.name()) == Some(k),
            LiquidityKind::named(s) matches Some(j) ==> j.name() == s,
    {
        reveal_strlit("constantProduct");
        reveal_strlit("weightedProduct");
        reveal_strlit("stable");
        reveal_strlit("concentratedLiquidity");
        reveal_strlit("limitOrder");
        assert("constantProduct"@[0] != "weightedProduct"@[0]);
        assert("constantProduct"@.len() != "stable"@.len());
        assert("constantProduct"@.len() != "concentratedLiquidity"@.len());
        assert("constantProduct"@.len() != "limitOrder"@.len());
        assert("weightedProduct"@.len() != "stable"@.len());
        assert("weightedProduct"@.len() != "concentratedLiquidity"@.len());
        assert("weightedProduct"@.len() != "limitOrder"@.len());
        assert("stable"@.len() != "concentratedLiquidity"@.len());
        assert("stable"@.len() != "limitOrder"@.len());
        assert("concentratedLiquidity"@.len() != "limitOrder"@.len());
    }
}

impl LiquidityKind {
    /// Reads the discriminant of a liquidity object.
    pub fn from_json(j: &Json) -> (r: Result<LiquidityKind, CodecError>)
        ensures
            match tag_of(*j) {
                None => r matches Err(CodecError::MissingRequiredField(f)) && f@ == "kind"@,
                Some(t) => match LiquidityKind::named(t) {
                    Some(k) => r == Ok::<LiquidityKind, CodecError>(k),
                    None => r matches Err(CodecError::UnknownVariant(u)) && u@ == t,
                },
            },
    {
        match read_tag(j) {
            Ok(t) => LiquidityKind::from_wire(t),
            Err(e) => Err(e),
        }
    }
}

/// A snapshot of the orders, tokens and liquidity of one batch.
#[derive(Debug, Clone)]
pub struct Auction {
    /// Absent for the current auction, present once it is final.
    pub id: Option<i64>,
    /// Token metadata by token address; the addresses are unique.
    pub tokens: Vec<(Address, Token)>,
    pub orders: Vec<Order>,
    pub liquidity: Vec<Liquidity>,
    pub effective_gas_price: U256,
    pub deadline: Timestamp,
    pub surplus_capturing_jit_order_owners: Vec<Address>,
}

/// Whether the ticks of a net-liquidity table are pairwise distinct.
pub open spec fn distinct_ticks(v: Seq<(i32, i128)>) -> bool {
    forall|i: int, j: int| 0 <= i < j < v.len() ==> v[i].0 != v[j].0
}

/// Whether the ticks of a net-liquidity table are pairwise distinct.
pub fn has_distinct_ticks(v: &Vec<(i32, i128)>) -> (r: bool)
    ensures
        r == distinct_ticks(v@),
{
    let n = v.len();
    let mut i: usize = 0;
    while i < n
        invariant
            n == v@.len(),
            i <= n,
            forall|a: int, b: int| 0 <= a < b < n && a < i ==> v@[a].0 != v@[b].0,
        decreases n - i,
    {
        let mut j: usize = i + 1;
        while j < n
            invariant
                n == v@.len(),
                i < n,
                i + 1 <= j <= n,
                forall|a: int, b: int| 0 <= a < b < n && a < i ==> v@[a].0 != v@[b].0,
                forall|b: int| i < b < j ==> v@[i as int].0 != v@[b].0,
            decreases n - j,
        {
            if v[i].0 == v[j].0 {
                return false;
            }
            j = j + 1;
        }
        i = i + 1;
    }
    true
}

/// Whether every map of an auction has unique keys: its token metadata and
/// the maps of each of its liquidity sources.
pub open spec fn auction_keys_unique(a: Auction) -> bool {
    distinct(key_bytes(a.tokens@)) && forall|i: int|
        0 <= i < a.liquidity@.len() ==> (#[trigger] a.liquidity@[i]).keys_unique()
}

impl Auction {
    /// Whether every map of the auction has unique keys.
    pub fn has_unique_keys(&self) -> (r: bool)
        ensures
            r == auction_keys_unique(*self),
    {
        if !self.has_unique_tokens() {
            return false;
        }
        let mut i: usize = 0;
        while i < self.liquidity.len()
            invariant
                i <= self.liquidity@.len(),
                forall|k: int| 0 <= k < i ==> (#[trigger] self.liquidity@[k]).keys_unique(),
            decreases self.liquidity@.len() - i,
        {
            if !self.liquidity[i].has_unique_keys() {
                return false;
            }
            i = i + 1;
        }
        true
    }

    /// Whether no token address stands twice in the token metadata.
    pub fn has_unique_tokens(&self) -> (r: bool)
        ensures
            r == distinct(key_bytes(self.tokens@)),
    {
        has_distinct_keys(&self.tokens)
    }

    /// The wire text of an optional auction id: its decimal text, or nothing.
    pub fn id_to_wire(id: Option<i64>) -> (r: Option<String>)
        ensures
            match id {
                None => r is None,
                Some(v) => r matches Some(t) && t@ == signed_text(v as int),
            },
    {
        match id {
            None => None,
            Some(v) => Some(i64_to_decimal(v)),
        }
    }

    /// Reads an optional auction id from its decimal text.
    pub fn id_from_wire(s: Option<&str>) -> (r: Result<Option<i64>, CodecError>)
        ensures
            match s {
                None => r == Ok::<Option<i64>, CodecError>(None),
                Some(t) => if is_signed_decimal(t@) && i64::MIN <= signed_value(t@) <= i64::MAX {
                    r == Ok::<Option<i64>, CodecError>(Some(signed_value(t@) as i64))
                } else {
                    r == Err::<Option<i64>, CodecError>(CodecError::InvalidInteger)
                },
            },
    {
        match s {
            None => Ok(None),
            Some(t) => match i64_from_decimal(t) {
                Ok(v) => Ok(Some(v)),
                Err(e) => Err(e),
            },
        }
    }
}

/// An order of the auction.
#[derive(Debug, Clone)]
pub struct Order {
    pub uid: OrderUid,
    pub sell_token: Address,
    pub buy_token: Address,
    pub sell_amount: U256,
    pub full_sell_amount: U256,
    pub buy_amount: U256,
    pub full_buy_amount: U256,
    pub fee_policies: Option<Vec<FeePolicy>>,
    pub valid_to: u32,
    pub kind: Kind,
    pub receiver: Option<Address>,
    pub owner: Address,
    pub partially_fillable: bool,
    pub pre_interactions: Vec<InteractionData>,
    pub post_interactions: Vec<InteractionData>,
    pub sell_token_source: SellTokenSource,
    pub buy_token_destination: BuyTokenDestination,
    pub class: Class,
    pub app_data: B256,
    pub signing_scheme: SigningScheme,
    pub signature: Bytes,
}

/// A call made before or after an order is settled.
#[derive(Debug, Clone)]
pub struct InteractionData {
    pub target: Address,
    pub value: U256,
    pub call_data: Bytes,
}

/// A fee policy of an order. Its factors are rates in IEEE double
/// precision, held here as the bits of the double.
#[derive(Debug, Clone)]
pub enum FeePolicy {
    Surplus { factor_bits: u64, max_volume_factor_bits: u64 },
    PriceImprovement { factor_bits: u64, max_volume_factor_bits: u64, quote: Quote },
    Volume { factor_bits: u64 },
}

#[derive(Debug, Clone)]
pub struct Quote {
    pub sell_amount: U256,
    pub buy_amount: U256,
    pub fee: U256,
}

/// Metadata of a token of the auction.
#[derive(Debug, Clone)]
pub struct Token {
    pub decimals: Option<u8>,
    pub symbol: Option<String>,
    pub reference_price: Option<U256>,
    pub available_balance: U256,
    /// Whether the token may be used as an intermediate hop.
    pub trusted: bool,
}

/// A source of liquidity.
#[derive(Debug, Clone)]
pub enum Liquidity {
    ConstantProduct(ConstantProductPool),
    WeightedProduct(WeightedProductPool),
    Stable(StablePool),
    ConcentratedLiquidity(ConcentratedLiquidityPool),
    LimitOrder(ForeignLimitOrder),
}

impl Liquidity {
    /// Whether the keys of this source's maps are unique: the token
    /// addresses of a pool, or the ticks of a concentrated-liquidity pool.
    pub open spec fn keys_unique(&self) -> bool {
        match self {
            Liquidity::ConstantProduct(p) => distinct(key_bytes(p.tokens@)),
            Liquidity::WeightedProduct(p) => distinct(key_bytes(p.tokens@)),
            Liquidity::Stable(p) => distinct(key_bytes(p.tokens@)),
            Liquidity::ConcentratedLiquidity(p) => distinct_ticks(p.liquidity_net@),
            Liquidity::LimitOrder(_) => true,
        }
    }

    /// Whether the keys of this source's maps are unique.
    pub fn has_unique_keys(&self) -> (r: bool)
        ensures
            r == self.keys_unique(),
    {
        match self {
            Liquidity::ConstantProduct(p) => has_distinct_keys(&p.tokens),
            Liquidity::WeightedProduct(p) => has_distinct_keys(&p.tokens),
            Liquidity::Stable(p) => has_distinct_keys(&p.tokens),
            Liquidity::ConcentratedLiquidity(p) => has_distinct_ticks(&p.liquidity_net),
            Liquidity::LimitOrder(_) => true,
        }
    }

    pub open spec fn spec_kind(&self) -> LiquidityKind {
        match self {
            Liquidity::ConstantProduct(_) => LiquidityKind::ConstantProduct,
            Liquidity::WeightedProduct(_) => LiquidityKind::WeightedProduct,
            Liquidity::Stable(_) => LiquidityKind::Stable,
            Liquidity::ConcentratedLiquidity(_) => LiquidityKind::ConcentratedLiquidity,
            Liquidity::LimitOrder(_) => LiquidityKind::LimitOrder,
        }
    }

    /// The discriminant that this liquidity carries on the wire.
    pub fn kind(&self) -> (r: LiquidityKind)
        ensures
            r == self.spec_kind(),
    {
        match self {
            Liquidity::ConstantProduct(_) => LiquidityKind::ConstantProduct,
            Liquidity::WeightedProduct(_) => LiquidityKind::WeightedProduct,
            Liquidity::Stable(_) => LiquidityKind::Stable,
            Liquidity::ConcentratedLiquidity(_) => LiquidityKind::ConcentratedLiquidity,
            Liquidity::LimitOrder(_) => LiquidityKind::LimitOrder,
        }
    }
}

#[derive(Debug, Clone)]
pub struct ConstantProductPool {
    pub id: String,
    pub address: Address,
    pub router: Address,
    pub gas_estimate: U256,
    pub tokens: Vec<(Address, ConstantProductReserve)>,
    pub fee: Decimal,
}

#[derive(Debug, Clone)]
pub struct ConstantProductReserve {
    pub balance: U256,
}

#[derive(Debug, Clone)]
pub struct WeightedProductPool {
    pub id: String,
    pub address: Address,
    pub balancer_pool_id: B256,
    pub gas_estimate: U256,
    pub tokens: Vec<(Address, WeightedProductReserve)>,
    pub fee: Decimal,
    pub version: WeightedProductVersion,
}

#[derive(Debug, Clone)]
pub struct WeightedProductReserve {
    pub balance: U256,
    pub scaling_factor: Decimal,
    pub weight: Decimal,
}

#[derive(Debug, Clone)]
pub struct StablePool {
    pub id: String,
    pub address: Address,
    pub balancer_pool_id: B256,
    pub gas_estimate: U256,
    pub tokens: Vec<(Address, StableReserve)>,
    pub amplification_parameter: Decimal,
    pub fee: Decimal,
}

#[derive(Debug, Clone)]
pub struct StableReserve {
    pub balance: U256,
    pub scaling_factor: Decimal,
}

#[derive(Debug, Clone)]
pub struct ConcentratedLiquidityPool {
    pub id: String,
    pub address: Address,
    pub router: Address,
    pub gas_estimate: U256,
    pub tokens: Vec<Address>,
    pub sqrt_price: U256,
    pub liquidity: u128,
    pub tick: i32,
    /// Net liquidity by tick; the ticks are unique.
    pub liquidity_net: Vec<(i32, i128)>,
    pub fee: Decimal,
}

#[derive(Debug, Clone)]
pub struct ForeignLimitOrder {
    pub id: String,
    pub address: Address,
    pub gas_estimate: U256,
    pub hash: B256,
    pub maker_token: Address,
    pub taker_token: Address,
    pub maker_amount: U256,
    pub taker_amount: U256,
    pub taker_token_fee_amount: U256,
}

} // verus!
