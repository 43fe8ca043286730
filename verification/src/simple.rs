//! The price-lookup endpoint: its request builder, the typed response
//! shape, and the validator that confirms a decoded response answers what
//! was asked.

use vstd::prelude::*;
use vstd::string::StringExecFns;
use crate::assoc::{
    assoc_map, assoc_keys_unique, lemma_assoc_map_contains, lemma_assoc_map_absent,
    lemma_assoc_map_index, lemma_assoc_map_push, lemma_assoc_map_update,
    lemma_assoc_unique_update,
};
use crate::errors::SimpleResponseError;

verus! {

/// A price-lookup request: the comma-joined coin identifiers, the
/// comma-joined currency codes, and four independent flags, each of which
/// adds exactly one query parameter when set.
#[derive(Debug, PartialEq, Eq)]
pub struct SimplePriceRequest {
    pub ids: String,
    pub vs_currencies: String,
    pub include_market_cap: bool,
    pub include_24hr_vol: bool,
    pub include_24hr_change: bool,
    pub include_last_updated_at: bool,
}

impl Default for SimplePriceRequest {
    /// Empty identifier lists and every flag off.
    fn default() -> (r: Self)
        ensures
            r.ids@ == Seq::<char>::empty(),
            r.vs_currencies@ == Seq::<char>::empty(),
            !r.include_market_cap,
            !r.include_24hr_vol,
            !r.include_24hr_change,
            !r.include_last_updated_at,
    {
        SimplePriceRequest {
            ids: String::new(),
            vs_currencies: String::new(),
            include_market_cap: false,
            include_24hr_vol: false,
            include_24hr_change: false,
            include_last_updated_at: false,
        }
    }
}

impl SimplePriceRequest {
    /// A request for the given comma-joined identifier lists, with every
    /// optional flag off.
    pub fn new(ids: String, vs_currencies: String) -> (r: Self)
        ensures
            r.ids == ids,
            r.vs_currencies == vs_currencies,
            !r.include_market_cap,
            !r.include_24hr_vol,
            !r.include_24hr_change,
            !r.include_last_updated_at,
    {
        let mut r = Self::default();
        r.ids = ids;
        r.vs_currencies = vs_currencies;
        r
    }

    /// The query string `query` renders: the two identifier lists, then one
    /// `&include_X=true` fragment per set flag and nothing for a clear one.
    pub open spec fn query_spec(&self) -> Seq<char> {
        "ids="@ + self.ids@ + "&vs_currencies="@ + self.vs_currencies@ + (if self.include_market_cap {
            "&include_market_cap=true"@
        } else {
            Seq::<char>::empty()
        }) + (if self.include_24hr_vol {
            "&include_24hr_vol=true"@
        } else {
            Seq::<char>::empty()
        }) + (if self.include_24hr_change {
            "&include_24hr_change=true"@
        } else {
            Seq::<char>::empty()
        }) + (if self.include_last_updated_at {
            "&include_last_updated_at=true"@
        } else {
            Seq::<char>::empty()
        })
    }

    /// Renders the query string for this request. Deterministic: the result
    /// is a function of the request value alone, pinned by `query_spec`.
    pub fn query(&self) -> (r: String)
        ensures
            r@ == self.query_spec(),
    {
        let mut r = String::from_str("ids=");
        r.append(self.ids.as_str());
        r.append("&vs_currencies=");
        r.append(self.vs_currencies.as_str());
        if self.include_market_cap {
            r.append("&include_market_cap=true");
        }
        if self.include_24hr_vol {
            r.append("&include_24hr_vol=true");
        }
        if self.include_24hr_change {
            r.append("&include_24hr_change=true");
        }
        if self.include_last_updated_at {
            r.append("&include_last_updated_at=true");
        }
        proof {
            assert(r@ =~= self.query_spec());
        }
        r
    }

    /// The full URL of this request against the fixed API base.
    pub fn url(&self) -> (r: String)
        ensures
            r@ == crate::API_BASE@ + "simple/price?"@ + self.query_spec(),
    {
        let mut r = String::from_str(crate::API_BASE);
        r.append("simple/price?");
        let q = self.query();
        r.append(q.as_str());
        r
    }
}

/// The price map of one coin: currency code to price. The price is kept as
/// the decimal text the API sent; the library never computes with it.
#[derive(Debug, PartialEq, Eq)]
pub struct SimplePrice {
    pub entries: Vec<(String, String)>,
}

impl View for SimplePrice {
    type V = Map<Seq<char>, Seq<char>>;

    open spec fn view(&self) -> Map<Seq<char>, Seq<char>> {
        assoc_map(self.spec_pairs())
    }
}

impl Clone for SimplePrice {
    /// An entry-for-entry copy.
    fn clone(&self) -> (r: Self)
        ensures
            r.entries@ == self.entries@,
    {
        let mut entries: Vec<(String, String)> = Vec::new();
        let mut i: usize = 0;
        while i < self.entries.len()
            invariant
                0 <= i <= self.entries.len(),
                entries@ == self.entries@.take(i as int),
            decreases self.entries.len() - i,
        {
            let k = self.entries[i].0.clone();
            let v = self.entries[i].1.clone();
            entries.push((k, v));
            proof {
                assert(entries@ =~= self.entries@.take(i + 1 as int));
            }
            i += 1;
        }
        proof {
            assert(self.entries@.take(self.entries@.len() as int) =~= self.entries@);
        }
        SimplePrice { entries }
    }
}

impl SimplePrice {
    /// The entries as pairs of character sequences.
    pub open spec fn spec_pairs(&self) -> Seq<(Seq<char>, Seq<char>)> {
        self.entries.deep_view()
    }

    /// No two entries share a currency code.
    pub open spec fn wf(&self) -> bool {
        assoc_keys_unique(self.spec_pairs())
    }

    /// An empty price map.
    pub fn new() -> (r: Self)
        ensures
            r.wf(),
            r@ == Map::<Seq<char>, Seq<char>>::empty(),
    {
        SimplePrice { entries: Vec::new() }
    }

    /// Inserts a price for a currency, replacing any price the currency
    /// already had.
    pub fn insert(&mut self, currency: String, price: String)
        requires
            old(self).wf(),
        ensures
            final(self).wf(),
            final(self)@ == old(self)@.insert(currency@, price@),
    {
        match index_of_key(&self.entries, &currency) {
            Some(i) => {
                let ghost s = self.spec_pairs();
                self.entries.remove(i);
                self.entries.insert(i, (currency, price));
                proof {
                    assert(self.spec_pairs() =~= s.update(i as int, (s[i as int].0, price@)));
                    lemma_assoc_unique_update(s, i as int, price@);
                    lemma_assoc_map_update(s, i as int, price@);
                }
            },
            None => {
                let ghost s = self.spec_pairs();
                self.entries.push((currency, price));
                proof {
                    assert(self.spec_pairs() =~= s.push((currency@, price@)));
                    lemma_assoc_map_push(s, currency@, price@);
                }
            },
        }
    }

    /// Whether the map has a price for the currency.
    pub fn contains_key(&self, currency: &String) -> (r: bool)
        ensures
            r == self@.contains_key(currency@),
    {
        match index_of_key(&self.entries, currency) {
            Some(i) => {
                proof {
                    lemma_assoc_map_contains(self.spec_pairs(), i as int);
                }
                true
            },
            None => {
                proof {
                    lemma_assoc_map_absent(self.spec_pairs(), currency@);
                }
                false
            },
        }
    }

    /// The price recorded for the currency, if any.
    pub fn get(&self, currency: &String) -> (r: Option<&String>)
        requires
            self.wf(),
        ensures
            match r {
                Some(p) => self@.contains_key(currency@) && p@ == self@[currency@],
                None => !self@.contains_key(currency@),
            },
    {
        match index_of_key(&self.entries, currency) {
            Some(i) => {
                proof {
                    lemma_assoc_map_index(self.spec_pairs(), i as int);
                }
                Some(&self.entries[i].1)
            },
            None => {
                proof {
                    lemma_assoc_map_absent(self.spec_pairs(), currency@);
                }
                None
            },
        }
    }
}

/// The canonical response shape of the price-lookup endpoint: coin
/// identifier to the coin's price map.
#[derive(Debug, PartialEq, Eq)]
pub struct SimplePrices {
    pub coins: Vec<(String, SimplePrice)>,
}

impl View for SimplePrices {
    type V = Map<Seq<char>, Map<Seq<char>, Seq<char>>>;

    open spec fn view(&self) -> Map<Seq<char>, Map<Seq<char>, Seq<char>>> {
        assoc_map(self.spec_pairs())
    }
}

impl Clone for SimplePrices {
    /// An entry-for-entry copy.
    fn clone(&self) -> (r: Self)
        ensures
            r.coins@.len() == self.coins@.len(),
            forall|i: int|
                0 <= i < self.coins@.len() ==> r.coins@[i].0 == self.coins@[i].0
                    && r.coins@[i].1.entries@ == self.coins@[i].1.entries@,
            r.spec_pairs() == self.spec_pairs(),
            self.wf() ==> r.wf(),
            r@ == self@,
    {
        let mut coins: Vec<(String, SimplePrice)> = Vec::new();
        let mut i: usize = 0;
        while i < self.coins.len()
            invariant
                0 <= i <= self.coins@.len(),
                coins@.len() == i,
                forall|j: int|
                    0 <= j < i ==> coins@[j].0 == self.coins@[j].0 && coins@[j].1.entries@
                        == self.coins@[j].1.entries@,
            decreases self.coins@.len() - i,
        {
            let k = self.coins[i].0.clone();
            let v = self.coins[i].1.clone();
            coins.push((k, v));
            i += 1;
        }
        let r = SimplePrices { coins };
        proof {
            assert(r.spec_pairs() =~= self.spec_pairs());
            if self.wf() {
                assert forall|j: int| 0 <= j < r.coins@.len() implies (#[trigger] r.coins@[j].1).wf() by {
                    assert(self.coins@[j].1.wf());
                    assert(r.coins@[j].1.spec_pairs() =~= self.coins@[j].1.spec_pairs());
                }
            }
        }
        r
    }
}

impl SimplePrices {
    /// The entries as pairs of coin identifier and price-map view.
    pub open spec fn spec_pairs(&self) -> Seq<(Seq<char>, Map<Seq<char>, Seq<char>>)> {
        self.coins@.map_values(|p: (String, SimplePrice)| (p.0@, p.1@))
    }

    /// No two entries share a coin identifier, and every price map is itself
    /// well formed.
    pub open spec fn wf(&self) -> bool {
        &&& assoc_keys_unique(self.spec_pairs())
        &&& forall|i: int| 0 <= i < self.coins@.len() ==> (#[trigger] self.coins@[i].1).wf()
    }

    /// An empty response map.
    pub fn new() -> (r: Self)
        ensures
            r.wf(),
            r@ == Map::<Seq<char>, Map<Seq<char>, Seq<char>>>::empty(),
    {
        SimplePrices { coins: Vec::new() }
    }

    /// Inserts the price map of a coin, replacing any map the coin already
    /// had.
    pub fn insert(&mut self, coin: String, prices: SimplePrice)
        requires
            old(self).wf(),
            prices.wf(),
        ensures
            final(self).wf(),
            final(self)@ == old(self)@.insert(coin@, prices@),
    {
        match index_of_key(&self.coins, &coin) {
            Some(i) => {
                let ghost s = self.spec_pairs();
                self.coins.remove(i);
                self.coins.insert(i, (coin, prices));
                proof {
                    assert(self.spec_pairs() =~= s.update(i as int, (s[i as int].0, prices@)));
                    lemma_assoc_unique_update(s, i as int, prices@);
                    lemma_assoc_map_update(s, i as int, prices@);
                }
            },
            None => {
                let ghost s = self.spec_pairs();
                self.coins.push((coin, prices));
                proof {
                    assert(self.spec_pairs() =~= s.push((coin@, prices@)));
                    lemma_assoc_map_push(s, coin@, prices@);
                }
            },
        }
    }

    /// Whether the response has an entry for the coin.
    pub fn contains_key(&self, coin: &String) -> (r: bool)
        ensures
            r == self@.contains_key(coin@),
    {
        match index_of_key(&self.coins, coin) {
            Some(i) => {
                proof {
                    lemma_assoc_map_contains(self.spec_pairs(), i as int);
                }
                true
            },
            None => {
                proof {
                    lemma_assoc_map_absent(self.spec_pairs(), coin@);
                }
                false
            },
        }
    }

    /// The price map recorded for the coin, if any.
    pub fn get(&self, coin: &String) -> (r: Option<&SimplePrice>)
        requires
            self.wf(),
        ensures
            match r {
                Some(pm) => self@.contains_key(coin@) && pm@ == self@[coin@] && pm.wf(),
                None => !self@.contains_key(coin@),
            },
    {
        match index_of_key(&self.coins, coin) {
            Some(i) => {
                proof {
                    lemma_assoc_map_index(self.spec_pairs(), i as int);
                }
                Some(&self.coins[i].1)
            },
            None => {
                proof {
                    lemma_assoc_map_absent(self.spec_pairs(), coin@);
                }
                None
            },
        }
    }
}

/// The outcome of validating a decoded response against the requested coin
/// and currency identifier lists.
pub enum Validation {
    /// Every requested coin is present, each with every requested currency.
    Valid,
    /// The first requested coin that is absent from the response.
    MissingCoin(Seq<char>),
    /// The first requested currency that is absent from the price map of the
    /// first requested coin that fails.
    MissingCurrency(Seq<char>),
}

/// The first currency of `xs`, in order, that `pm` has no price for.
pub open spec fn first_missing_currency(pm: Map<Seq<char>, Seq<char>>, xs: Seq<Seq<char>>) -> Option<
    Seq<char>,
>
    decreases xs.len(),
{
    if xs.len() == 0 {
        None
    } else if !pm.contains_key(xs[0]) {
        Some(xs[0])
    } else {
        first_missing_currency(pm, xs.skip(1))
    }
}

/// Fail-fast validation of the response map `m` against the requested coins
/// `cs` and currencies `xs`: walk the coins in order; report the first coin
/// absent from `m`, or, for the first coin whose price map lacks a requested
/// currency, the first such currency. An empty `cs` is vacuously valid.
pub open spec fn validation_of(
    m: Map<Seq<char>, Map<Seq<char>, Seq<char>>>,
    cs: Seq<Seq<char>>,
    xs: Seq<Seq<char>>,
) -> Validation
    decreases cs.len(),
{
    if cs.len() == 0 {
        Validation::Valid
    } else if !m.contains_key(cs[0]) {
        Validation::MissingCoin(cs[0])
    } else {
        match first_missing_currency(m[cs[0]], xs) {
            Some(x) => Validation::MissingCurrency(x),
            None => validation_of(m, cs.skip(1), xs),
        }
    }
}

/// A decoded price-lookup response, ready to be validated against the
/// identifier lists the caller asked for.
#[derive(Debug, PartialEq, Eq)]
pub struct SimplePriceResponse {
    pub simple_response: SimplePrices,
}

/// Everything `validate_response` promises of a result `r` for the response
/// map `m` and the requested lists `cs` and `xs`: success exactly when
/// validation holds, the full map back unaltered on success, and the first
/// offending identifier named otherwise.
pub open spec fn validate_post(
    m: Map<Seq<char>, Map<Seq<char>, Seq<char>>>,
    cs: Seq<Seq<char>>,
    xs: Seq<Seq<char>>,
    r: Result<SimplePrices, SimpleResponseError>,
) -> bool {
    match r {
        Ok(p) => validation_of(m, cs, xs) is Valid && p@ == m && p.wf(),
        Err(e) => match e {
            SimpleResponseError::UnknownCoinError(c) => validation_of(m, cs, xs)
                == Validation::MissingCoin(c@),
            SimpleResponseError::UnknownCurrencyError(x) => validation_of(m, cs, xs)
                == Validation::MissingCurrency(x@),
            _ => false,
        },
    }
}

impl SimplePriceResponse {
    /// The response map itself.
    pub open spec fn view(&self) -> Map<Seq<char>, Map<Seq<char>, Seq<char>>> {
        self.simple_response@
    }

    /// Whether the decoded response answers what was asked: every requested
    /// coin must be a key, and every requested currency a nested key under
    /// each requested coin. On success the full map is returned unaltered —
    /// extra coins or currencies the API chose to include are passed
    /// through, not stripped. On failure the first offender is reported and
    /// nothing after it is examined. An empty request list is vacuously
    /// satisfied here; the client facade rejects empty input before any
    /// request is built.
    pub fn validate_response(&self, coin_ids: &Vec<String>, currencies: &Vec<String>) -> (r: Result<
        SimplePrices,
        SimpleResponseError,
    >)
        requires
            self.simple_response.wf(),
        ensures
            validate_post(self@, coin_ids.deep_view(), currencies.deep_view(), r),
    {
        let ghost m = self@;
        let ghost cs = coin_ids.deep_view();
        let ghost xs = currencies.deep_view();
        let mut i: usize = 0;
        proof {
            assert(cs.skip(0) =~= cs);
        }
        while i < coin_ids.len()
            invariant
                0 <= i <= coin_ids@.len(),
                cs == coin_ids.deep_view(),
                xs == currencies.deep_view(),
                cs.len() == coin_ids@.len(),
                xs.len() == currencies@.len(),
                m == self@,
                self.simple_response.wf(),
                validation_of(m, cs, xs) == validation_of(m, cs.skip(i as int), xs),
            decreases coin_ids@.len() - i,
        {
            let coin = &coin_ids[i];
            proof {
                assert(cs.skip(i as int)[0] == cs[i as int]);
            }
            match self.simple_response.get(coin) {
                None => {
                    return Err(SimpleResponseError::UnknownCoinError(coin.clone()));
                },
                Some(pm) => {
                    let mut j: usize = 0;
                    proof {
                        assert(xs.skip(0) =~= xs);
                    }
                    while j < currencies.len()
                        invariant
                            0 <= j <= currencies@.len(),
                            0 <= i < cs.len(),
                            cs == coin_ids.deep_view(),
                            xs == currencies.deep_view(),
                            xs.len() == currencies@.len(),
                            m == self@,
                            m.contains_key(cs[i as int]),
                            pm@ == m[cs[i as int]],
                            validation_of(m, cs, xs) == validation_of(m, cs.skip(i as int), xs),
                            cs.skip(i as int)[0] == cs[i as int],
                            first_missing_currency(pm@, xs) == first_missing_currency(
                                pm@,
                                xs.skip(j as int),
                            ),
                        decreases currencies@.len() - j,
                    {
                        proof {
                            assert(xs.skip(j as int)[0] == xs[j as int]);
                        }
                        if !pm.contains_key(&currencies[j]) {
                            proof {
                                assert(first_missing_currency(pm@, xs) == Some(xs[j as int]));
                                assert(validation_of(m, cs.skip(i as int), xs)
                                    == Validation::MissingCurrency(xs[j as int]));
                            }
                            return Err(
                                SimpleResponseError::UnknownCurrencyError(currencies[j].clone()),
                            );
                        }
                        proof {
                            assert(xs.skip(j as int).skip(1) =~= xs.skip(j + 1 as int));
                        }
                        j += 1;
                    }
                    proof {
                        assert(xs.skip(currencies@.len() as int) =~= Seq::<Seq<char>>::empty());
                        assert(first_missing_currency(pm@, xs) is None);
                        assert(cs.skip(i as int).skip(1) =~= cs.skip(i + 1 as int));
                    }
                },
            }
            i += 1;
        }
        proof {
            assert(cs.skip(coin_ids@.len() as int) =~= Seq::<Seq<char>>::empty());
        }
        Ok(self.simple_response.clone())
    }
}

/// If the price map has every currency of `xs`, none is reported missing.
proof fn lemma_no_missing_currency(pm: Map<Seq<char>, Seq<char>>, xs: Seq<Seq<char>>)
    requires
        forall|j: int| 0 <= j < xs.len() ==> pm.contains_key(#[trigger] xs[j]),
    ensures
        first_missing_currency(pm, xs) is None,
    decreases xs.len(),
{
    if xs.len() > 0 {
        assert(forall|j: int|
            0 <= j < xs.skip(1).len() ==> #[trigger] xs.skip(1)[j] == xs[j + 1]);
        lemma_no_missing_currency(pm, xs.skip(1));
    }
}

/// The first missing currency is the first one, in order, that the price
/// map has no price for.
proof fn lemma_first_missing_at(pm: Map<Seq<char>, Seq<char>>, xs: Seq<Seq<char>>, j: int)
    requires
        0 <= j < xs.len(),
        forall|l: int| 0 <= l < j ==> pm.contains_key(#[trigger] xs[l]),
        !pm.contains_key(xs[j]),
    ensures
        first_missing_currency(pm, xs) == Some(xs[j]),
    decreases j,
{
    if j > 0 {
        assert(forall|l: int|
            0 <= l < xs.skip(1).len() ==> #[trigger] xs.skip(1)[l] == xs[l + 1]);
        lemma_first_missing_at(pm, xs.skip(1), j - 1);
    }
}

/// Core of the coverage law, without the non-emptiness of the lists.
proof fn lemma_validation_covered(
    m: Map<Seq<char>, Map<Seq<char>, Seq<char>>>,
    cs: Seq<Seq<char>>,
    xs: Seq<Seq<char>>,
)
    requires
        forall|i: int| 0 <= i < cs.len() ==> m.contains_key(#[trigger] cs[i]),
        forall|i: int, j: int|
            0 <= i < cs.len() && 0 <= j < xs.len() ==> m[#[trigger] cs[i]].contains_key(
                #[trigger] xs[j],
            ),
    ensures
        validation_of(m, cs, xs) is Valid,
    decreases cs.len(),
{
    if cs.len() > 0 {
        lemma_no_missing_currency(m[cs[0]], xs);
        assert(forall|i: int|
            0 <= i < cs.skip(1).len() ==> #[trigger] cs.skip(1)[i] == cs[i + 1]);
        lemma_validation_covered(m, cs.skip(1), xs);
    }
}

/// For all non-empty coin and currency lists, a response that holds every
/// requested coin, each with every requested currency, validates as `Valid`;
/// `validate_response` then returns the full map unaltered.
pub proof fn lemma_validation_full_coverage(
    m: Map<Seq<char>, Map<Seq<char>, Seq<char>>>,
    cs: Seq<Seq<char>>,
    xs: Seq<Seq<char>>,
)
    requires
        cs.len() > 0,
        xs.len() > 0,
        forall|i: int| 0 <= i < cs.len() ==> m.contains_key(#[trigger] cs[i]),
        forall|i: int, j: int|
            0 <= i < cs.len() && 0 <= j < xs.len() ==> m[#[trigger] cs[i]].contains_key(
                #[trigger] xs[j],
            ),
    ensures
        validation_of(m, cs, xs) is Valid,
{
    lemma_validation_covered(m, cs, xs);
}

/// When every coin before position `i` is present with every requested
/// currency and the coin at `i` is absent, validation reports exactly that
/// coin: the first missing one in the order the caller supplied.
pub proof fn lemma_validation_missing_coin(
    m: Map<Seq<char>, Map<Seq<char>, Seq<char>>>,
    cs: Seq<Seq<char>>,
    xs: Seq<Seq<char>>,
    i: int,
)
    requires
        0 <= i < cs.len(),
        !m.contains_key(cs[i]),
        forall|k: int| 0 <= k < i ==> m.contains_key(#[trigger] cs[k]),
        forall|k: int, j: int|
            0 <= k < i && 0 <= j < xs.len() ==> m[#[trigger] cs[k]].contains_key(#[trigger] xs[j]),
    ensures
        validation_of(m, cs, xs) == Validation::MissingCoin(cs[i]),
    decreases i,
{
    if i > 0 {
        lemma_no_missing_currency(m[cs[0]], xs);
        assert(forall|k: int|
            0 <= k < cs.skip(1).len() ==> #[trigger] cs.skip(1)[k] == cs[k + 1]);
        lemma_validation_missing_coin(m, cs.skip(1), xs, i - 1);
    }
}

/// When every coin before position `i` is present with every requested
/// currency, the coin at `i` is present, and `xs[j]` is the first requested
/// currency its price map lacks, validation reports exactly that currency.
pub proof fn lemma_validation_missing_currency(
    m: Map<Seq<char>, Map<Seq<char>, Seq<char>>>,
    cs: Seq<Seq<char>>,
    xs: Seq<Seq<char>>,
    i: int,
    j: int,
)
    requires
        0 <= i < cs.len(),
        0 <= j < xs.len(),
        forall|k: int| 0 <= k < i ==> m.contains_key(#[trigger] cs[k]),
        forall|k: int, l: int|
            0 <= k < i && 0 <= l < xs.len() ==> m[#[trigger] cs[k]].contains_key(#[trigger] xs[l]),
        m.contains_key(cs[i]),
        forall|l: int| 0 <= l < j ==> m[cs[i]].contains_key(#[trigger] xs[l]),
        !m[cs[i]].contains_key(xs[j]),
    ensures
        validation_of(m, cs, xs) == Validation::MissingCurrency(xs[j]),
    decreases i,
{
    if i == 0 {
        lemma_first_missing_at(m[cs[0]], xs, j);
    } else {
        lemma_no_missing_currency(m[cs[0]], xs);
        assert(forall|k: int|
            0 <= k < cs.skip(1).len() ==> #[trigger] cs.skip(1)[k] == cs[k + 1]);
        lemma_validation_missing_currency(m, cs.skip(1), xs, i - 1, j);
    }
}

/// Validation is fail-fast: once the first `n` coins already make it fail,
/// the coins after them are never reached — they do not change the outcome.
pub proof fn lemma_validation_ignores_later_coins(
    m: Map<Seq<char>, Map<Seq<char>, Seq<char>>>,
    cs: Seq<Seq<char>>,
    xs: Seq<Seq<char>>,
    n: int,
)
    requires
        0 <= n <= cs.len(),
        !(validation_of(m, cs.take(n), xs) is Valid),
    ensures
        validation_of(m, cs, xs) == validation_of(m, cs.take(n), xs),
    decreases n,
{
    let t = cs.take(n);
    if n > 0 {
        assert(t[0] == cs[0]);
        if m.contains_key(cs[0]) && first_missing_currency(m[cs[0]], xs) is None {
            assert(t.skip(1) =~= cs.skip(1).take(n - 1));
            lemma_validation_ignores_later_coins(m, cs.skip(1), xs, n - 1);
        }
    }
}

/// Validating the same response against the same lists twice yields the
/// same outcome: any two results the validator's contract allows for the
/// same inputs agree on success, on the offending variant and identifier,
/// and on the returned map. The response itself is never altered: the
/// validator takes it by shared reference and returns it as it stands.
pub proof fn lemma_validation_idempotent(
    m: Map<Seq<char>, Map<Seq<char>, Seq<char>>>,
    cs: Seq<Seq<char>>,
    xs: Seq<Seq<char>>,
    r1: Result<SimplePrices, SimpleResponseError>,
    r2: Result<SimplePrices, SimpleResponseError>,
)
    requires
        validate_post(m, cs, xs, r1),
        validate_post(m, cs, xs, r2),
    ensures
        r1 is Ok <==> r2 is Ok,
        match (r1, r2) {
            (Ok(p1), Ok(p2)) => p1@ == p2@,
            (Err(e1), Err(e2)) => match (e1, e2) {
                (
                    SimpleResponseError::UnknownCoinError(c1),
                    SimpleResponseError::UnknownCoinError(c2),
                ) => c1@ == c2@,
                (
                    SimpleResponseError::UnknownCurrencyError(x1),
                    SimpleResponseError::UnknownCurrencyError(x2),
                ) => x1@ == x2@,
                _ => false,
            },
            _ => false,
        },
{
}

/// What `serde_json` decodes the body of a price-lookup response to: coin
/// identifier to currency code to the price's decimal text, as a function of
/// the body text alone; `None` when the body is not JSON of that shape.
pub uninterp spec fn prices_decode_of(body: Seq<char>) -> Option<
    Map<Seq<char>, Map<Seq<char>, Seq<char>>>,
>;

/// Relies on `serde_json::from_str`: decodes the body as a JSON object of
/// objects of numbers, keyed by coin and then by currency. The outcome is a
/// function of the body text alone; map keys are unique on either level.
#[verifier::external_body]
pub(crate) fn decode_prices(body: &str) -> (r: Result<SimplePrices, String>)
    ensures
        match r {
            Ok(p) => prices_decode_of(body@) == Some(p@) && p.wf(),
            Err(_) => prices_decode_of(body@) is None,
        },
{
    match serde_json::from_str::<
        std::collections::BTreeMap<String, std::collections::BTreeMap<String, serde_json::Number>>,
    >(body) {
        Ok(m) => Ok(SimplePrices {
            coins: m.into_iter().map(|(coin, pm)| (coin, SimplePrice {
                entries: pm.into_iter().map(|(cur, n)| (cur, n.to_string())).collect(),
            })).collect(),
        }),
        Err(e) => Err(e.to_string()),
    }
}

/// The position of the first pair whose key equals `k`, if any.
fn index_of_key<V>(entries: &Vec<(String, V)>, k: &String) -> (r: Option<usize>)
    ensures
        match r {
            Some(i) => i < entries@.len() && entries@[i as int].0@ == k@,
            None => forall|j: int| 0 <= j < entries@.len() ==> entries@[j].0@ != k@,
        },
{
    let mut i: usize = 0;
    while i < entries.len()
        invariant
            0 <= i <= entries@.len(),
            forall|j: int| 0 <= j < i ==> entries@[j].0@ != k@,
        decreases entries@.len() - i,
    {
        if entries[i].0 == *k {
            return Some(i);
        }
        i += 1;
    }
    None
}

} // verus!
