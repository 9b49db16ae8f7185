//! A batch of identifiers, resolved one after the other.
//!
//! The library does not resolve names itself. It asks: [`ip_to_geoip`] and
//! every answer lead to a [`Progress`], which is either the next question
//! (the addresses of an identifier, then the reverse name of the address
//! chosen), the finished list of records, or the failure of the whole batch.
//! The caller resolves and answers until one of the last two comes.
//!
//! Identifiers are taken in the order given, one record is made for each, and
//! the first identifier without an address fails the batch: no record is
//! handed out then.

use vstd::prelude::*;
use crate::dataset::{asn_data, city_data, Dataset};
use crate::geoip_response::{text_of, GeoIpResponse, GeoResult};
use crate::resolver::{geo_result, resolve};

verus! {

/// The texts of a list of strings.
pub open spec fn texts(v: Seq<String>) -> Seq<Seq<char>> {
    v.map_values(|s: String| s@)
}

/// What a list of records holds.
pub open spec fn records(v: Seq<GeoIpResponse>) -> Seq<GeoResult> {
    v.map_values(|r: GeoIpResponse| r@)
}

/// A batch under way: its identifiers, and the records made so far, which are
/// those of the first identifiers in order.
pub struct BatchState {
    pub identifiers: Seq<Seq<char>>,
    pub results: Seq<GeoResult>,
}

/// A batch that has chosen the address of its current identifier.
pub struct NameState {
    pub batch: BatchState,
    pub address: Seq<char>,
}

/// What a [`Progress`] holds.
pub enum Stage {
    /// The addresses of the next identifier are asked for.
    Addresses(BatchState),
    /// The reverse name of the address chosen is asked for.
    Name(NameState),
    /// Every identifier has its record.
    Done(Seq<GeoResult>),
    /// This identifier has no address.
    Failed(Seq<char>),
}

impl BatchState {
    /// The identifier that is resolved next.
    pub open spec fn current(self) -> Seq<char> {
        self.identifiers[self.results.len() as int]
    }

    /// The batch with one more record.
    pub open spec fn with_result(self, result: GeoResult) -> BatchState {
        BatchState { identifiers: self.identifiers, results: self.results.push(result) }
    }

    /// What follows once a record is made: the question for the next
    /// identifier, or the end.
    pub open spec fn proceed(self) -> Stage {
        if self.results.len() < self.identifiers.len() {
            Stage::Addresses(self)
        } else {
            Stage::Done(self.results)
        }
    }

    /// What follows the answer to a question for addresses: the first address
    /// is taken; without one the batch fails.
    pub open spec fn on_addresses(self, addresses: Seq<Seq<char>>) -> Stage {
        if addresses.len() == 0 {
            Stage::Failed(self.current())
        } else {
            Stage::Name(NameState { batch: self, address: addresses[0] })
        }
    }
}

impl NameState {
    /// What follows the answer to a question for a reverse name: the record
    /// for the address is made and added.
    pub open spec fn on_name(
        self,
        name: Option<Seq<char>>,
        city_image: Seq<u8>,
        asn_image: Seq<u8>,
    ) -> Stage {
        self.batch.with_result(
            geo_result(
                self.address,
                name,
                city_data(city_image, self.address),
                asn_data(asn_image, self.address),
            ),
        ).proceed()
    }
}

/// How a batch begins.
pub open spec fn begin(identifiers: Seq<Seq<char>>) -> Stage {
    BatchState { identifiers, results: Seq::empty() }.proceed()
}

/// The batch failed: forward resolution gave no address for an identifier.
#[derive(Clone, Debug, PartialEq, Eq)]
pub struct ResolveError {
    /// The identifier without an address.
    pub identifier: String,
}

/// A batch that waits for the addresses of its next identifier.
pub struct AwaitingAddresses {
    identifiers: Vec<String>,
    results: Vec<GeoIpResponse>,
}

/// A batch that waits for the reverse name of the address chosen for its
/// current identifier.
pub struct AwaitingName {
    identifiers: Vec<String>,
    results: Vec<GeoIpResponse>,
    address: String,
}

/// Where a batch stands: a question to answer, or its end.
pub enum Progress {
    /// Resolve the identifier and answer with its addresses.
    Addresses(AwaitingAddresses),
    /// Reverse-resolve the address and answer with its name.
    Name(AwaitingName),
    /// The records, one for each identifier, in the order of the identifiers.
    Done(Vec<GeoIpResponse>),
    /// The batch failed; there are no records.
    Failed(ResolveError),
}

impl View for AwaitingAddresses {
    type V = BatchState;

    closed spec fn view(&self) -> BatchState {
        BatchState { identifiers: texts(self.identifiers@), results: records(self.results@) }
    }
}

impl View for AwaitingName {
    type V = NameState;

    closed spec fn view(&self) -> NameState {
        NameState {
            batch: BatchState {
                identifiers: texts(self.identifiers@),
                results: records(self.results@),
            },
            address: self.address@,
        }
    }
}

impl View for Progress {
    type V = Stage;

    open spec fn view(&self) -> Stage {
        match *self {
            Progress::Addresses(batch) => Stage::Addresses(batch@),
            Progress::Name(batch) => Stage::Name(batch@),
            Progress::Done(results) => Stage::Done(records(results@)),
            Progress::Failed(error) => Stage::Failed(error.identifier@),
        }
    }
}

/// Continues a batch after a record has been added.
fn proceed(identifiers: Vec<String>, results: Vec<GeoIpResponse>) -> (r: Progress)
    requires
        results.len() <= identifiers.len(),
    ensures
        r@ == (BatchState {
            identifiers: texts(identifiers@),
            results: records(results@),
        }).proceed(),
{
    if results.len() < identifiers.len() {
        Progress::Addresses(AwaitingAddresses { identifiers, results })
    } else {
        Progress::Done(results)
    }
}

/// Begins a batch: the records of `ips` are wanted, in that order.
///
/// An empty batch is done at once; any other asks for the addresses of its
/// first identifier.
pub fn ip_to_geoip(ips: Vec<String>) -> (r: Progress)
    ensures
        r@ == begin(texts(ips@)),
{
    let results: Vec<GeoIpResponse> = Vec::new();
    assert(records(results@) =~= Seq::empty());
    proceed(ips, results)
}

impl AwaitingAddresses {
    #[verifier::type_invariant]
    spec fn has_current(self) -> bool {
        self.results.len() < self.identifiers.len()
    }

    /// The identifier whose addresses are asked for.
    pub fn identifier(&self) -> (r: &String)
        ensures
            self@.results.len() < self@.identifiers.len(),
            r@ == self@.current(),
    {
        proof {
            use_type_invariant(self);
        }
        &self.identifiers[self.results.len()]
    }

    /// Takes the addresses that forward resolution gave, in the order it gave
    /// them; none where it failed.
    ///
    /// The first address is chosen and its reverse name asked for. Without an
    /// address the batch fails, naming the identifier.
    pub fn resolved(self, addresses: Vec<String>) -> (r: Progress)
        ensures
            r@ == self@.on_addresses(texts(addresses@)),
    {
        proof {
            use_type_invariant(&self);
        }
        if addresses.len() == 0 {
            let identifier = self.identifiers[self.results.len()].clone();
            Progress::Failed(ResolveError { identifier })
        } else {
            let address = addresses[0].clone();
            Progress::Name(
                AwaitingName { identifiers: self.identifiers, results: self.results, address },
            )
        }
    }
}

impl AwaitingName {
    #[verifier::type_invariant]
    spec fn has_current(self) -> bool {
        self.results.len() < self.identifiers.len()
    }

    /// The identifier that is being resolved.
    pub fn identifier(&self) -> (r: &String)
        ensures
            self@.batch.results.len() < self@.batch.identifiers.len(),
            r@ == self@.batch.current(),
    {
        proof {
            use_type_invariant(self);
        }
        &self.identifiers[self.results.len()]
    }

    /// The address whose reverse name is asked for.
    pub fn address(&self) -> (r: &String)
        ensures
            r@ == self@.address,
    {
        &self.address
    }

    /// Takes the name that reverse resolution gave for the address; none
    /// where it failed.
    ///
    /// The record for the address is made from the name and the two datasets
    /// and added behind those made before. The batch then asks for the
    /// addresses of the next identifier, or is done.
    pub fn named(self, name: Option<String>, city_db: &Dataset, asn_db: &Dataset) -> (r: Progress)
        ensures
            r@ == self@.on_name(text_of(name), city_db@, asn_db@),
    {
        proof {
            use_type_invariant(&self);
        }
        let identifiers = self.identifiers;
        let mut results = self.results;
        let ghost before = results@;
        let response = resolve(self.address, name, city_db, asn_db);
        results.push(response);
        assert(records(results@) =~= records(before).push(response@));
        proceed(identifiers, results)
    }
}

/// What name resolution answers for one identifier: the addresses of forward
/// resolution and the reverse name of the address chosen.
pub struct Observation {
    pub addresses: Seq<Seq<char>>,
    pub name: Option<Seq<char>>,
}

/// The record that an observation with at least one address leads to.
pub open spec fn result_of(o: Observation, city_image: Seq<u8>, asn_image: Seq<u8>) -> GeoResult {
    geo_result(
        o.addresses[0],
        o.name,
        city_data(city_image, o.addresses[0]),
        asn_data(asn_image, o.addresses[0]),
    )
}

/// The records that a list of observations leads to, one for each, in order.
pub open spec fn results_of(
    observations: Seq<Observation>,
    city_image: Seq<u8>,
    asn_image: Seq<u8>,
) -> Seq<GeoResult> {
    Seq::new(observations.len(), |i: int| result_of(observations[i], city_image, asn_image))
}

/// Every observation has an address.
pub open spec fn all_resolved(observations: Seq<Observation>) -> bool {
    forall|i: int| 0 <= i < observations.len() ==> (#[trigger] observations[i]).addresses.len() > 0
}

/// Observation `k` is the first without an address.
pub open spec fn first_unresolved(observations: Seq<Observation>, k: int) -> bool {
    &&& 0 <= k < observations.len()
    &&& observations[k].addresses.len() == 0
    &&& forall|i: int| 0 <= i < k ==> (#[trigger] observations[i]).addresses.len() > 0
}

/// Where a batch stands after its questions have been answered from
/// `observations`, one observation for each identifier in turn.
pub open spec fn run(
    stage: Stage,
    observations: Seq<Observation>,
    city_image: Seq<u8>,
    asn_image: Seq<u8>,
) -> Stage
    decreases observations.len(),
{
    match stage {
        Stage::Addresses(batch) => {
            if observations.len() == 0 {
                stage
            } else {
                match batch.on_addresses(observations[0].addresses) {
                    Stage::Name(waiting) => run(
                        waiting.on_name(observations[0].name, city_image, asn_image),
                        observations.skip(1),
                        city_image,
                        asn_image,
                    ),
                    other => other,
                }
            }
        },
        _ => stage,
    }
}

/// A batch that has made some records and is answered for every identifier
/// left: it ends with the records made before followed by one record for each
/// observation, or fails at the first observation without an address.
proof fn lemma_run(
    batch: BatchState,
    observations: Seq<Observation>,
    city_image: Seq<u8>,
    asn_image: Seq<u8>,
)
    requires
        batch.results.len() + observations.len() == batch.identifiers.len(),
    ensures
        all_resolved(observations) ==> run(
            batch.proceed(),
            observations,
            city_image,
            asn_image,
        ) == Stage::Done(batch.results + results_of(observations, city_image, asn_image)),
        forall|k: int| #[trigger]
            first_unresolved(observations, k) ==> run(
                batch.proceed(),
                observations,
                city_image,
                asn_image,
            ) == Stage::Failed(batch.identifiers[batch.results.len() + k]),
    decreases observations.len(),
{
    let end = run(batch.proceed(), observations, city_image, asn_image);
    if observations.len() == 0 {
        assert(batch.results + results_of(observations, city_image, asn_image) =~= batch.results);
    } else if observations[0].addresses.len() == 0 {
        assert(!all_resolved(observations));
        assert forall|k: int| #[trigger] first_unresolved(observations, k) implies end
            == Stage::Failed(batch.identifiers[batch.results.len() + k]) by {
            if k > 0 {
                assert(observations[0].addresses.len() > 0);
            }
        }
    } else {
        let rest = observations.skip(1);
        let next = batch.with_result(result_of(observations[0], city_image, asn_image));
        lemma_run(next, rest, city_image, asn_image);
        assert(end == run(next.proceed(), rest, city_image, asn_image));
        if all_resolved(observations) {
            assert forall|i: int| 0 <= i < rest.len() implies (#[trigger] rest[i]).addresses.len()
                > 0 by {
                assert(rest[i] == observations[i + 1]);
            }
            assert(next.results + results_of(rest, city_image, asn_image) =~= batch.results
                + results_of(observations, city_image, asn_image));
        }
        assert forall|k: int| #[trigger] first_unresolved(observations, k) implies end
            == Stage::Failed(batch.identifiers[batch.results.len() + k]) by {
            assert(k > 0);
            assert forall|i: int| 0 <= i < k - 1 implies (#[trigger] rest[i]).addresses.len()
                > 0 by {
                assert(rest[i] == observations[i + 1]);
            }
            assert(rest[k - 1] == observations[k]);
            assert(first_unresolved(rest, k - 1));
        }
    }
}

/// Order is kept: where every identifier has an address, the batch ends with
/// exactly one record for each identifier, and the record at each place is the
/// one made from what was answered for the identifier at that place, whatever
/// was answered for the others.
pub proof fn lemma_results_in_input_order(
    identifiers: Seq<Seq<char>>,
    observations: Seq<Observation>,
    city_image: Seq<u8>,
    asn_image: Seq<u8>,
)
    requires
        observations.len() == identifiers.len(),
        all_resolved(observations),
    ensures
        run(begin(identifiers), observations, city_image, asn_image) == Stage::Done(
            results_of(observations, city_image, asn_image),
        ),
        results_of(observations, city_image, asn_image).len() == identifiers.len(),
        forall|i: int|
            0 <= i < identifiers.len() ==> #[trigger] results_of(
                observations,
                city_image,
                asn_image,
            )[i] == result_of(observations[i], city_image, asn_image),
{
    let start = BatchState { identifiers, results: Seq::empty() };
    lemma_run(start, observations, city_image, asn_image);
    assert(start.results + results_of(observations, city_image, asn_image) =~= results_of(
        observations,
        city_image,
        asn_image,
    ));
}

/// One identifier without an address fails the whole batch: it ends in the
/// failure that names the first such identifier, and hands out no record.
pub proof fn lemma_unresolved_fails_batch(
    identifiers: Seq<Seq<char>>,
    observations: Seq<Observation>,
    k: int,
    city_image: Seq<u8>,
    asn_image: Seq<u8>,
)
    requires
        observations.len() == identifiers.len(),
        first_unresolved(observations, k),
    ensures
        run(begin(identifiers), observations, city_image, asn_image) == Stage::Failed(
            identifiers[k],
        ),
{
    let start = BatchState { identifiers, results: Seq::empty() };
    lemma_run(start, observations, city_image, asn_image);
}

/// The address of a record is one of the addresses that forward resolution
/// gave for its identifier: the first of them.
pub proof fn lemma_address_among_resolved(o: Observation, city_image: Seq<u8>, asn_image: Seq<u8>)
    requires
        o.addresses.len() > 0,
    ensures
        result_of(o, city_image, asn_image).ip.ip == o.addresses[0],
        o.addresses.contains(result_of(o, city_image, asn_image).ip.ip),
{
}

/// An identifier that forward resolution answers with itself, as it does for
/// the text of an address, is the address of its record.
pub proof fn lemma_literal_kept(
    identifier: Seq<char>,
    o: Observation,
    city_image: Seq<u8>,
    asn_image: Seq<u8>,
)
    requires
        o.addresses.len() > 0,
        o.addresses[0] == identifier,
    ensures
        result_of(o, city_image, asn_image).ip.ip == identifier,
{
}

} // verus!
