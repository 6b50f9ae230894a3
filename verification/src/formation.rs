//! The formation planning context: the single source of truth combining
//! CLI options into the values a formation configuration is built from.
//!
//! A formation is a named collection of flights plus placement rules.  The
//! caller extracts plain values from its command line and database files
//! and hands them here; this module resolves flight references, fills the
//! context, and assembles the configuration model.

use vstd::prelude::*;
use vstd::string::StringExecFns;
use vstd::string::StrSliceExecFns;

use crate::error::CliError;
use crate::error::CliErrorKind;
use crate::error::TermColor;
use crate::ops::generate_formation_name;
use crate::ops::spec_valid_name;

verus! {

/// A compute provider a formation may be placed on.
#[derive(Clone, Copy, Debug, PartialEq, Eq, Structural)]
pub enum Provider {
    Aws,
    Azure,
    DigitalOcean,
    Equinix,
    Gcp,
}

/// A coarse geographic region a formation may be placed in.
#[derive(Clone, Copy, Debug, PartialEq, Eq, Structural)]
pub enum Region {
    XA,
    XC,
    XE,
    XF,
    XN,
    XO,
    XQ,
    XS,
    XU,
}

/// One exposed endpoint mapping of a formation configuration.
#[derive(Clone, Debug, PartialEq, Eq)]
pub struct Endpoint {
    /// The exposed key (protocol and port, or path).
    pub key: String,
    /// The destination it routes to.
    pub value: String,
}

impl Endpoint {
    /// The exposed key.
    pub fn key(&self) -> (r: &String)
        ensures
            r == &self.key,
    {
        &self.key
    }

    /// The routed-to destination.
    pub fn value(&self) -> (r: &String)
        ensures
            r == &self.value,
    {
        &self.value
    }
}

/// One flight known locally: its ID and its name.
#[derive(Clone, Debug, PartialEq, Eq)]
pub struct FlightRef {
    /// The flight's hex ID.
    pub id: String,
    /// The flight's name.
    pub name: String,
}

/// The locally known flights, in database order.
#[derive(Clone, Debug, PartialEq, Eq)]
pub struct Flights {
    pub inner: Vec<FlightRef>,
}

/// Whether `q` names the entry exactly, or is a prefix of its ID.
pub open spec fn spec_entry_matches(e: FlightRef, q: String) -> bool {
    e.name@ == q@ || (q@.len() <= e.id@.len() && e.id@.subrange(0, q@.len() as int) == q@)
}

/// Whether `q` is exactly the entry's name.
pub open spec fn spec_entry_named(e: FlightRef, q: String) -> bool {
    e.name@ == q@
}

/// The first entry `q` matches by name or ID prefix, if any.
pub open spec fn spec_find(db: Seq<FlightRef>, q: String) -> Option<FlightRef>
    decreases db.len(),
{
    if db.len() == 0 {
        None
    } else if spec_entry_matches(db[0], q) {
        Some(db[0])
    } else {
        spec_find(db.drop_first(), q)
    }
}

/// The first entry named exactly `q`, if any.
pub open spec fn spec_find_named(db: Seq<FlightRef>, q: String) -> Option<FlightRef>
    decreases db.len(),
{
    if db.len() == 0 {
        None
    } else if spec_entry_named(db[0], q) {
        Some(db[0])
    } else {
        spec_find_named(db.drop_first(), q)
    }
}

/// Whether `prefix` is a prefix of `s`, character by character.
fn str_starts_with(s: &str, prefix: &str) -> (r: bool)
    ensures
        r == (prefix@.len() <= s@.len() && s@.subrange(0, prefix@.len() as int) == prefix@),
{
    let np = prefix.unicode_len();
    let ns = s.unicode_len();
    if np > ns {
        return false;
    }
    let mut i: usize = 0;
    while i < np
        invariant
            np == prefix@.len(),
            ns == s@.len(),
            np <= ns,
            0 <= i <= np,
            forall|j: int| 0 <= j < i ==> s@[j] == prefix@[j],
        decreases np - i,
    {
        if s.get_char(i) != prefix.get_char(i) {
            assert(s@.subrange(0, np as int)[i as int] != prefix@[i as int]);
            return false;
        }
        i += 1;
    }
    assert(s@.subrange(0, np as int) =~= prefix@);
    true
}

impl Flights {
    /// Look a flight up by exact name or by ID prefix; the first entry in
    /// database order wins.
    pub fn find_name_or_partial_id(&self, q: &String) -> (r: Option<&FlightRef>)
        ensures
            match r {
                Some(f) => spec_find(self.inner@, *q) == Some(*f),
                None => spec_find(self.inner@, *q) is None,
            },
    {
        let n = self.inner.len();
        let mut i: usize = 0;
        assert(self.inner@.skip(0) =~= self.inner@);
        while i < n
            invariant
                n == self.inner@.len(),
                0 <= i <= n,
                spec_find(self.inner@, *q) == spec_find(self.inner@.skip(i as int), *q),
            decreases n - i,
        {
            let e = &self.inner[i];
            let ghost pre = self.inner@.skip(i as int);
            assert(pre[0] == self.inner@[i as int]);
            if e.name == *q || str_starts_with(e.id.as_str(), q.as_str()) {
                assert(spec_entry_matches(self.inner@[i as int], *q));
                return Some(&self.inner[i]);
            }
            assert(!spec_entry_matches(self.inner@[i as int], *q));
            assert(pre.drop_first() =~= self.inner@.skip(i as int + 1));
            i += 1;
        }
        assert(self.inner@.skip(n as int) =~= Seq::<FlightRef>::empty());
        None
    }

    /// Look a flight up by exact name; the first entry in database order
    /// wins.
    pub fn find_name(&self, q: &String) -> (r: Option<&FlightRef>)
        ensures
            match r {
                Some(f) => spec_find_named(self.inner@, *q) == Some(*f),
                None => spec_find_named(self.inner@, *q) is None,
            },
    {
        let n = self.inner.len();
        let mut i: usize = 0;
        assert(self.inner@.skip(0) =~= self.inner@);
        while i < n
            invariant
                n == self.inner@.len(),
                0 <= i <= n,
                spec_find_named(self.inner@, *q) == spec_find_named(self.inner@.skip(i as int), *q),
            decreases n - i,
        {
            let e = &self.inner[i];
            let ghost pre = self.inner@.skip(i as int);
            assert(pre[0] == self.inner@[i as int]);
            if e.name == *q {
                assert(spec_entry_named(self.inner@[i as int], *q));
                return Some(&self.inner[i]);
            }
            assert(pre.drop_first() =~= self.inner@.skip(i as int + 1));
            i += 1;
        }
        assert(self.inner@.skip(n as int) =~= Seq::<FlightRef>::empty());
        None
    }
}

/// The error `seaplane formation plan` reports for a flight reference that
/// matches nothing locally, with its hint text.
pub open spec fn spec_is_no_matching_flight(e: CliError, flight: Seq<char>) -> bool {
    &&& e.kind matches CliErrorKind::NoMatchingItem(n) && n@ == flight
    &&& e.context@.len() == 6
    &&& e.context@[0].color is None && e.context@[0].text@ == "(hint: create the Flight Plan with '"@
    &&& e.context@[1].color == Some(TermColor::Green) && e.context@[1].text@ == "seaplane flight plan "@
        + flight
    &&& e.context@[2].color is None && e.context@[2].text@ == "')\n"@
    &&& e.context@[3].color is None && e.context@[3].text@
        == "(hint: or try fetching remote definitions with '"@
    &&& e.context@[4].color == Some(TermColor::Green) && e.context@[4].text@
        == "seaplane formation fetch-remote"@
    &&& e.context@[5].color is None && e.context@[5].text@ == "')\n"@
}

/// Whether a flight reference on the command line names a flight at all:
/// `@`-prefixed file references and inline `key=value` definitions are not
/// looked up in the local database.
pub open spec fn spec_eligible(q: String) -> bool {
    &&& !(q@.len() > 0 && q@[0] == '@')
    &&& !(exists|i: int| 0 <= i < q@.len() && q@[i] == '=')
}

/// Check whether a flight reference is looked up in the local database.
fn is_eligible(q: &String) -> (r: bool)
    ensures
        r == spec_eligible(*q),
{
    let s = q.as_str();
    let n = s.unicode_len();
    if n > 0 && s.get_char(0) == '@' {
        assert(q@[0] == '@');
        return false;
    }
    let mut i: usize = 0;
    while i < n
        invariant
            s@ == q@,
            n == s@.len(),
            0 <= i <= n,
            forall|j: int| 0 <= j < i ==> s@[j] != '=',
        decreases n - i,
    {
        if s.get_char(i) == '=' {
            assert(q@[i as int] == '=');
            return false;
        }
        i += 1;
    }
    assert(!(exists|j: int| 0 <= j < q@.len() && q@[j] == '=')) by {
        if exists|j: int| 0 <= j < q@.len() && q@[j] == '=' {
            let j = choose|j: int| 0 <= j < q@.len() && q@[j] == '=';
            assert(s@[j] != '=');
        }
    }
    true
}

/// The names the eligible flight references resolve to, in order, or the
/// first reference that resolves to nothing.
pub open spec fn spec_resolve_flights(db: Seq<FlightRef>, qs: Seq<String>) -> Result<
    Seq<String>,
    String,
>
    decreases qs.len(),
{
    if qs.len() == 0 {
        Ok(Seq::empty())
    } else {
        let q = qs[0];
        if !spec_eligible(q) {
            spec_resolve_flights(db, qs.drop_first())
        } else {
            match spec_find(db, q) {
                Some(f) => match spec_resolve_flights(db, qs.drop_first()) {
                    Ok(rest) => Ok(seq![f.name] + rest),
                    Err(e) => Err(e),
                },
                None => Err(q),
            }
        }
    }
}

/// The names the flight names of a configuration resolve to by exact name,
/// in order, or the first name that resolves to nothing.
pub open spec fn spec_resolve_models(db: Seq<FlightRef>, qs: Seq<String>) -> Result<
    Seq<String>,
    String,
>
    decreases qs.len(),
{
    if qs.len() == 0 {
        Ok(Seq::empty())
    } else {
        match spec_find_named(db, qs[0]) {
            Some(f) => match spec_resolve_models(db, qs.drop_first()) {
                Ok(rest) => Ok(seq![f.name] + rest),
                Err(e) => Err(e),
            },
            None => Err(qs[0]),
        }
    }
}

/// The plain values of a `seaplane formation plan` invocation.
#[derive(Clone, Debug)]
pub struct FormationPlanArgs {
    /// Every `--include-flight-plan` value, in order.
    pub include_flight_plans: Vec<String>,
    /// The `NAME|ID` argument, when given.
    pub name_id: Option<String>,
    /// Whether `--grounded` was given.
    pub grounded: bool,
    /// Whether `--launch` was given.
    pub launch: bool,
    /// Every `--affinity` value, in order.
    pub affinities: Vec<String>,
    /// Every `--connection` value, in order.
    pub connections: Vec<String>,
    /// The de-duplicated `--provider` values.
    pub providers_allowed: Vec<Provider>,
    /// The de-duplicated `--exclude-provider` values.
    pub providers_denied: Vec<Provider>,
    /// The de-duplicated `--region` values.
    pub regions_allowed: Vec<Region>,
    /// The de-duplicated `--exclude-region` values.
    pub regions_denied: Vec<Region>,
    /// Every `--public-endpoint` value, in order.
    pub public_endpoints: Vec<Endpoint>,
    /// Every `--formation-endpoint` value, in order.
    pub formation_endpoints: Vec<Endpoint>,
    /// Every `--flight-endpoint` value, in order.
    pub flight_endpoints: Vec<Endpoint>,
}

/// The configuration values a formation is built from.
#[derive(Clone, Debug)]
pub struct FormationCfgCtx {
    /// Flight names; a name is the only identity shared by local and
    /// remote definitions.
    pub flights: Vec<String>,
    /// Affinity references, by flight name.
    pub affinities: Vec<String>,
    /// Connection references, by flight name.
    pub connections: Vec<String>,
    pub providers_allowed: Vec<Provider>,
    pub providers_denied: Vec<Provider>,
    pub regions_allowed: Vec<Region>,
    pub regions_denied: Vec<Region>,
    pub public_endpoints: Vec<Endpoint>,
    pub formation_endpoints: Vec<Endpoint>,
    pub flight_endpoints: Vec<Endpoint>,
}

impl Default for FormationCfgCtx {
    fn default() -> (r: Self)
        ensures
            r.flights@ =~= Seq::<String>::empty(),
            r.affinities@ =~= Seq::<String>::empty(),
            r.connections@ =~= Seq::<String>::empty(),
            r.providers_allowed@ =~= Seq::<Provider>::empty(),
            r.providers_denied@ =~= Seq::<Provider>::empty(),
            r.regions_allowed@ =~= Seq::<Region>::empty(),
            r.regions_denied@ =~= Seq::<Region>::empty(),
            r.public_endpoints@ =~= Seq::<Endpoint>::empty(),
            r.formation_endpoints@ =~= Seq::<Endpoint>::empty(),
            r.flight_endpoints@ =~= Seq::<Endpoint>::empty(),
    {
        FormationCfgCtx {
            flights: Vec::new(),
            affinities: Vec::new(),
            connections: Vec::new(),
            providers_allowed: Vec::new(),
            providers_denied: Vec::new(),
            regions_allowed: Vec::new(),
            regions_denied: Vec::new(),
            public_endpoints: Vec::new(),
            formation_endpoints: Vec::new(),
            flight_endpoints: Vec::new(),
        }
    }
}

/// The source of truth for one formation: CLI options, environment and
/// configuration combined into the values later requests are built from.
#[derive(Clone, Debug)]
pub struct FormationCtx {
    /// The formation's name or ID.
    pub name_id: String,
    /// Whether the formation launches immediately.
    pub launch: bool,
    /// Whether remote definitions are considered.
    pub remote: bool,
    /// Whether local definitions are considered.
    pub local: bool,
    /// Whether the formation starts grounded.
    pub grounded: bool,
    /// Whether referenced definitions are fetched recursively.
    pub recursive: bool,
    /// The configuration values.
    pub cfg_ctx: FormationCfgCtx,
}

impl Default for FormationCtx {
    /// A fresh context: a generated, valid formation name, local-only, not
    /// launched, with an empty configuration.
    fn default() -> (r: Self)
        ensures
            spec_valid_name(r.name_id@),
            !r.launch,
            !r.remote,
            r.local,
            !r.grounded,
            !r.recursive,
            r.cfg_ctx.flights@ =~= Seq::<String>::empty(),
    {
        FormationCtx {
            name_id: generate_formation_name(),
            launch: false,
            cfg_ctx: FormationCfgCtx::default(),
            remote: false,
            local: true,
            grounded: false,
            recursive: false,
        }
    }
}

impl FormationCtx {
    /// Fill this context from a `formation plan` invocation.
    ///
    /// Every eligible `--include-flight-plan` reference is resolved against
    /// the local database — by exact name or ID prefix — and the resolved
    /// names are appended to the configured flights, in order.  A reference
    /// that resolves to nothing fails the whole call and leaves the context
    /// unchanged.  On success the remaining fields are taken from the
    /// invocation: name and flags are set, affinities and connections are
    /// appended, and the placement and endpoint lists are replaced.
    pub fn update_from_formation_plan(&mut self, mut args: FormationPlanArgs, db: &Flights) -> (r:
        Result<(), CliError>)
        ensures
            match spec_resolve_flights(db.inner@, args.include_flight_plans@) {
                Ok(names) => r is Ok && {
                    &&& args.name_id matches Some(n) ==> final(self).name_id == n
                    &&& args.name_id is None ==> spec_valid_name(final(self).name_id@)
                    &&& final(self).grounded == args.grounded
                    &&& final(self).launch == args.launch
                    &&& final(self).remote == old(self).remote
                    &&& final(self).local == old(self).local
                    &&& final(self).recursive == old(self).recursive
                    &&& final(self).cfg_ctx.flights@ == old(self).cfg_ctx.flights@ + names
                    &&& final(self).cfg_ctx.affinities@ == old(self).cfg_ctx.affinities@
                        + args.affinities@
                    &&& final(self).cfg_ctx.connections@ == old(self).cfg_ctx.connections@
                        + args.connections@
                    &&& final(self).cfg_ctx.providers_allowed == args.providers_allowed
                    &&& final(self).cfg_ctx.providers_denied == args.providers_denied
                    &&& final(self).cfg_ctx.regions_allowed == args.regions_allowed
                    &&& final(self).cfg_ctx.regions_denied == args.regions_denied
                    &&& final(self).cfg_ctx.public_endpoints == args.public_endpoints
                    &&& final(self).cfg_ctx.formation_endpoints == args.formation_endpoints
                    &&& final(self).cfg_ctx.flight_endpoints == args.flight_endpoints
                },
                Err(q) => (r matches Err(e) && spec_is_no_matching_flight(e, q@)) && *final(self)
                    == *old(self),
            },
    {
        let n = args.include_flight_plans.len();
        let mut flight_names: Vec<String> = Vec::new();
        let ghost args0 = args;
        let ghost full = args.include_flight_plans@;
        let mut i: usize = 0;
        assert(full.skip(0) =~= full);
        while i < n
            invariant
                args == args0,
                n == full.len(),
                full == args.include_flight_plans@,
                0 <= i <= n,
                spec_resolve_flights(db.inner@, full) == match spec_resolve_flights(
                    db.inner@,
                    full.skip(i as int),
                ) {
                    Ok(rest) => Ok::<Seq<String>, String>(flight_names@ + rest),
                    Err(e) => Err::<Seq<String>, String>(e),
                },
            decreases n - i,
        {
            let ghost suffix = full.skip(i as int);
            assert(suffix[0] == full[i as int]);
            assert(suffix.drop_first() =~= full.skip(i as int + 1));
            let q = &args.include_flight_plans[i];
            if is_eligible(q) {
                match db.find_name_or_partial_id(q) {
                    Some(f) => {
                        let ghost prior = flight_names@;
                        let ghost found = *f;
                        flight_names.push(f.name.clone());
                        proof {
                            let rest_r = spec_resolve_flights(db.inner@, full.skip(i as int + 1));
                            if let Ok(rest) = rest_r {
                                assert(flight_names@ + rest =~= prior + (seq![found.name] + rest));
                            }
                        }
                    },
                    None => {
                        return Err(no_matching_flight(q.as_str()));
                    },
                }
            }
            i += 1;
        }
        assert(full.skip(n as int) =~= Seq::<String>::empty());
        proof {
            assert(flight_names@ + Seq::<String>::empty() =~= flight_names@);
        }
        self.name_id = match args.name_id {
            Some(name) => name,
            None => generate_formation_name(),
        };
        self.grounded = args.grounded;
        self.launch = args.launch;
        self.cfg_ctx.flights.append(&mut flight_names);
        self.cfg_ctx.affinities.append(&mut args.affinities);
        self.cfg_ctx.connections.append(&mut args.connections);
        self.cfg_ctx.providers_allowed = args.providers_allowed;
        self.cfg_ctx.providers_denied = args.providers_denied;
        self.cfg_ctx.regions_allowed = args.regions_allowed;
        self.cfg_ctx.regions_denied = args.regions_denied;
        self.cfg_ctx.public_endpoints = args.public_endpoints;
        self.cfg_ctx.formation_endpoints = args.formation_endpoints;
        self.cfg_ctx.flight_endpoints = args.flight_endpoints;
        Ok(())
    }
}

/// The assembled configuration of one formation, ready to be sent to the
/// compute service.
#[derive(Clone, Debug, PartialEq, Eq)]
pub struct FormationConfiguration {
    /// The names of the flights the formation runs, in order.
    pub flights: Vec<String>,
    pub providers_allowed: Vec<Provider>,
    pub providers_denied: Vec<Provider>,
    pub regions_allowed: Vec<Region>,
    pub regions_denied: Vec<Region>,
    pub public_endpoints: Vec<Endpoint>,
    pub flight_endpoints: Vec<Endpoint>,
}

/// Duplicate a vector of copyable values.
fn copy_vec<T: Copy>(v: &Vec<T>) -> (r: Vec<T>)
    ensures
        r@ == v@,
{
    let mut r: Vec<T> = Vec::new();
    let n = v.len();
    let mut i: usize = 0;
    while i < n
        invariant
            n == v@.len(),
            0 <= i <= n,
            r@ == v@.subrange(0, i as int),
        decreases n - i,
    {
        r.push(v[i]);
        assert(r@ =~= v@.subrange(0, i as int + 1));
        i += 1;
    }
    assert(v@.subrange(0, n as int) =~= v@);
    r
}

/// Duplicate a vector of endpoints.
fn copy_endpoints(v: &Vec<Endpoint>) -> (r: Vec<Endpoint>)
    ensures
        r@ == v@,
{
    let mut r: Vec<Endpoint> = Vec::new();
    let n = v.len();
    let mut i: usize = 0;
    while i < n
        invariant
            n == v@.len(),
            0 <= i <= n,
            r@ == v@.subrange(0, i as int),
        decreases n - i,
    {
        let e = Endpoint { key: v[i].key.clone(), value: v[i].value.clone() };
        r.push(e);
        assert(r@ =~= v@.subrange(0, i as int + 1));
        i += 1;
    }
    assert(v@.subrange(0, n as int) =~= v@);
    r
}

impl FormationCtx {
    /// Assemble a [`FormationConfiguration`] from the contained values.
    ///
    /// Every configured flight name must exist in the local database by
    /// exact name; the first that does not fails the whole call.  On
    /// success the configuration carries the flights in configured order
    /// and the placement and endpoint values as they stand.
    pub fn configuration_model(&self, db: &Flights) -> (r: Result<FormationConfiguration, CliError>)
        ensures
            match spec_resolve_models(db.inner@, self.cfg_ctx.flights@) {
                Ok(names) => r matches Ok(m) && {
                    &&& m.flights@ == names
                    &&& m.providers_allowed@ == self.cfg_ctx.providers_allowed@
                    &&& m.providers_denied@ == self.cfg_ctx.providers_denied@
                    &&& m.regions_allowed@ == self.cfg_ctx.regions_allowed@
                    &&& m.regions_denied@ == self.cfg_ctx.regions_denied@
                    &&& m.public_endpoints@ == self.cfg_ctx.public_endpoints@
                    &&& m.flight_endpoints@ == self.cfg_ctx.flight_endpoints@
                },
                Err(q) => r matches Err(e) && spec_is_no_matching_flight(e, q@),
            },
    {
        let qs = &self.cfg_ctx.flights;
        let n = qs.len();
        let ghost full = qs@;
        let mut names: Vec<String> = Vec::new();
        let mut i: usize = 0;
        assert(full.skip(0) =~= full);
        while i < n
            invariant
                n == full.len(),
                full == self.cfg_ctx.flights@,
                0 <= i <= n,
                spec_resolve_models(db.inner@, full) == match spec_resolve_models(
                    db.inner@,
                    full.skip(i as int),
                ) {
                    Ok(rest) => Ok::<Seq<String>, String>(names@ + rest),
                    Err(e) => Err::<Seq<String>, String>(e),
                },
            decreases n - i,
        {
            let ghost suffix = full.skip(i as int);
            assert(suffix[0] == full[i as int]);
            assert(suffix.drop_first() =~= full.skip(i as int + 1));
            let q = &self.cfg_ctx.flights[i];
            match db.find_name(q) {
                Some(f) => {
                    let ghost prior = names@;
                    let ghost found = *f;
                    names.push(f.name.clone());
                    proof {
                        let rest_r = spec_resolve_models(db.inner@, full.skip(i as int + 1));
                        if let Ok(rest) = rest_r {
                            assert(names@ + rest =~= prior + (seq![found.name] + rest));
                        }
                    }
                },
                None => {
                    return Err(no_matching_flight(q.as_str()));
                },
            }
            i += 1;
        }
        assert(full.skip(n as int) =~= Seq::<String>::empty());
        proof {
            assert(names@ + Seq::<String>::empty() =~= names@);
        }
        Ok(
            FormationConfiguration {
                flights: names,
                providers_allowed: copy_vec(&self.cfg_ctx.providers_allowed),
                providers_denied: copy_vec(&self.cfg_ctx.providers_denied),
                regions_allowed: copy_vec(&self.cfg_ctx.regions_allowed),
                regions_denied: copy_vec(&self.cfg_ctx.regions_denied),
                public_endpoints: copy_endpoints(&self.cfg_ctx.public_endpoints),
                flight_endpoints: copy_endpoints(&self.cfg_ctx.flight_endpoints),
            },
        )
    }
}

/// One locally mirrored formation: its name and which of its configuration
/// instances are in the air or grounded, by configuration ID.
#[derive(Clone, Debug, PartialEq, Eq)]
pub struct Formation {
    /// The formation's name, when it has one.
    pub name: Option<String>,
    /// The IDs of the configurations currently in the air.
    pub in_air: Vec<u64>,
    /// The IDs of the grounded configurations.
    pub grounded: Vec<u64>,
}

impl Formation {
    /// Land the formation: every configuration in the air moves to the
    /// grounded set, after those already grounded; nothing is lost.
    pub fn land(&mut self)
        ensures
            final(self).name == old(self).name,
            final(self).in_air@ =~= Seq::<u64>::empty(),
            final(self).grounded@ == old(self).grounded@ + old(self).in_air@,
    {
        self.grounded.append(&mut self.in_air);
    }
}

/// How `formation land` proceeds for a given number of matching formations.
#[derive(Clone, Copy, Debug, PartialEq, Eq, Structural)]
pub enum LandSelection {
    /// Nothing matched the given name or ID.
    NoneMatched,
    /// The match is unambiguous, or `--all` covers every match.
    Proceed,
    /// Several formations matched and `--all` was not given.
    Ambiguous,
}

/// Decide how `formation land` proceeds: no match is an error, one match
/// lands, and several matches land only under `--all`.
pub fn select_land_targets(n_matches: usize, all: bool) -> (r: LandSelection)
    ensures
        n_matches == 0 ==> r == LandSelection::NoneMatched,
        n_matches == 1 ==> r == LandSelection::Proceed,
        n_matches > 1 && all ==> r == LandSelection::Proceed,
        n_matches > 1 && !all ==> r == LandSelection::Ambiguous,
{
    if n_matches == 0 {
        LandSelection::NoneMatched
    } else if n_matches == 1 || all {
        LandSelection::Proceed
    } else {
        LandSelection::Ambiguous
    }
}

/// The error for a flight reference that matches nothing locally.
pub fn no_matching_flight(flight: &str) -> (r: CliError)
    ensures
        spec_is_no_matching_flight(r, flight@),
{
    let mut plan_cmd = String::from_str("seaplane flight plan ");
    plan_cmd.append(flight);
    CliErrorKind::NoMatchingItem(String::from_str(flight)).into_err().context(
        String::from_str("(hint: create the Flight Plan with '"),
    ).color_context(TermColor::Green, plan_cmd).context(String::from_str("')\n")).context(
        String::from_str("(hint: or try fetching remote definitions with '"),
    ).color_context(TermColor::Green, String::from_str("seaplane formation fetch-remote")).context(
        String::from_str("')\n"),
    )
}

} // verus!
