//! The secondary company-registry record store: plain keyed CRUD over
//! company records, with no state machine. A record is keyed by its `cui`
//! (the company's fiscal identifier); keys are unique and records are never
//! deleted. Each successful mutation is recorded as an auditable event.

use crate::proposals::{AccountId, Origin};
use vstd::prelude::*;

verus! {

/// Failure kinds of the registry operations; a failed call leaves the store
/// exactly as it was.
#[derive(Clone, Copy, PartialEq, Eq, Structural, Debug)]
pub enum Error {
    CompanyAlreadyExists,
    CompanyNotFound,
    Unauthorized,
}

/// One company record. The descriptive fields are opaque byte strings,
/// carried through unchanged and never interpreted.
#[derive(Clone, PartialEq, Eq, Debug)]
pub struct Company {
    pub cui: u16,
    pub denumire: Vec<u8>,
    pub cod_inmatriculare: Vec<u8>,
    pub euid: Vec<u8>,
    pub stare_firma: Vec<u8>,
    pub adresa_completa: Vec<u8>,
}

/// Abstract value of a [`Company`].
#[verifier::ext_equal]
pub struct CompanyView {
    pub cui: u16,
    pub denumire: Seq<u8>,
    pub cod_inmatriculare: Seq<u8>,
    pub euid: Seq<u8>,
    pub stare_firma: Seq<u8>,
    pub adresa_completa: Seq<u8>,
}

impl View for Company {
    type V = CompanyView;

    open spec fn view(&self) -> CompanyView {
        CompanyView {
            cui: self.cui,
            denumire: self.denumire@,
            cod_inmatriculare: self.cod_inmatriculare@,
            euid: self.euid@,
            stare_firma: self.stare_firma@,
            adresa_completa: self.adresa_completa@,
        }
    }
}

/// Structured notification of one successful mutation.
#[derive(Clone, Copy, PartialEq, Eq, Structural, Debug)]
pub enum Event {
    CompanyAdded { cui: u16, sender: AccountId },
    CompanyUpdated { cui: u16, sender: AccountId },
}

/// Abstract state of the registry: the record table and the event log.
#[verifier::ext_equal]
pub struct RegistryView {
    pub companies: Seq<CompanyView>,
    pub events: Seq<Event>,
}

/// Whether a record keyed `cui` is present.
pub open spec fn has_cui(s: Seq<CompanyView>, cui: u16) -> bool {
    exists|i: int| 0 <= i < s.len() && s[i].cui == cui
}

/// The position of the record keyed `cui` (meaningful when [`has_cui`]
/// holds; under [`registry_inv`] it is unique).
pub open spec fn index_of_cui(s: Seq<CompanyView>, cui: u16) -> int {
    choose|i: int| 0 <= i < s.len() && s[i].cui == cui
}

/// The record keyed `cui` (meaningful when [`has_cui`] holds).
pub open spec fn company_at(s: Seq<CompanyView>, cui: u16) -> CompanyView {
    s[index_of_cui(s, cui)]
}

/// State invariant: keys are unique.
pub open spec fn registry_inv(s: RegistryView) -> bool {
    forall|i: int, j: int|
        0 <= i < j < s.companies.len() ==> (#[trigger] s.companies[i]).cui != (
        #[trigger] s.companies[j]).cui
}

/// A record with each descriptive field replaced where an update supplies a
/// new value; the key never changes.
pub open spec fn merged(
    c: CompanyView,
    denumire: Option<Seq<u8>>,
    cod_inmatriculare: Option<Seq<u8>>,
    euid: Option<Seq<u8>>,
    stare_firma: Option<Seq<u8>>,
    adresa_completa: Option<Seq<u8>>,
) -> CompanyView {
    CompanyView {
        cui: c.cui,
        denumire: or_else(denumire, c.denumire),
        cod_inmatriculare: or_else(cod_inmatriculare, c.cod_inmatriculare),
        euid: or_else(euid, c.euid),
        stare_firma: or_else(stare_firma, c.stare_firma),
        adresa_completa: or_else(adresa_completa, c.adresa_completa),
    }
}

/// The supplied value, or the default where none is supplied.
pub open spec fn or_else(o: Option<Seq<u8>>, d: Seq<u8>) -> Seq<u8> {
    match o {
        Some(s) => s,
        None => d,
    }
}

/// Abstract value of an optional byte-string argument.
pub open spec fn opt_bytes(o: Option<Vec<u8>>) -> Option<Seq<u8>> {
    match o {
        Some(v) => Some(v@),
        None => None,
    }
}

/// The company-registry store. One instance owns the record table and the
/// event log; all access goes through its methods.
pub struct Pallet {
    companies: Vec<Company>,
    events: Vec<Event>,
}

impl View for Pallet {
    type V = RegistryView;

    closed spec fn view(&self) -> RegistryView {
        RegistryView {
            companies: Seq::new(self.companies@.len(), |i: int| self.companies@[i]@),
            events: self.events@,
        }
    }
}

impl Pallet {
    /// Well-formedness: the abstract state satisfies [`registry_inv`].
    pub closed spec fn wf(&self) -> bool {
        registry_inv(self@)
    }

    /// Bootstraps an empty registry.
    pub fn new() -> (r: Pallet)
        ensures
            r.wf(),
            r@ == (RegistryView {
                companies: Seq::<CompanyView>::empty(),
                events: Seq::<Event>::empty(),
            }),
    {
        let r = Pallet { companies: Vec::new(), events: Vec::new() };
        proof {
            assert(r@.companies =~= Seq::<CompanyView>::empty());
            assert(r@ =~~= RegistryView {
                companies: Seq::<CompanyView>::empty(),
                events: Seq::<Event>::empty(),
            });
        }
        r
    }

    /// Position of the record keyed `cui`, if any.
    fn find_index(&self, cui: u16) -> (r: Option<usize>)
        ensures
            match r {
                Some(i) => i < self@.companies.len() && self@.companies[i as int].cui == cui,
                None => !has_cui(self@.companies, cui),
            },
    {
        let mut k: usize = 0;
        while k < self.companies.len()
            invariant
                k <= self@.companies.len(),
                self@.companies.len() == self.companies@.len(),
                forall|j: int| 0 <= j < k ==> (#[trigger] self@.companies[j]).cui != cui,
            decreases self@.companies.len() - k,
        {
            if self.companies[k].cui == cui {
                return Some(k);
            }
            k = k + 1;
        }
        None
    }

    /// Stores a new record for a signed caller, provided the key is not
    /// taken, and emits `CompanyAdded`.
    pub fn add_company(
        &mut self,
        origin: Origin,
        cui: u16,
        denumire: Vec<u8>,
        cod_inmatriculare: Vec<u8>,
        euid: Vec<u8>,
        stare_firma: Vec<u8>,
        adresa_completa: Vec<u8>,
    ) -> (r: Result<(), Error>)
        requires
            old(self).wf(),
        ensures
            final(self).wf(),
            match r {
                Ok(()) => origin matches Origin::Signed(sender) && !has_cui(
                    old(self)@.companies,
                    cui,
                ) && final(self)@.companies == old(self)@.companies.push(
                    CompanyView {
                        cui,
                        denumire: denumire@,
                        cod_inmatriculare: cod_inmatriculare@,
                        euid: euid@,
                        stare_firma: stare_firma@,
                        adresa_completa: adresa_completa@,
                    },
                ) && final(self)@.events == old(self)@.events.push(
                    Event::CompanyAdded { cui, sender },
                ),
                Err(Error::Unauthorized) => !(origin is Signed) && final(self)@ == old(self)@,
                Err(Error::CompanyAlreadyExists) => origin is Signed && has_cui(
                    old(self)@.companies,
                    cui,
                ) && final(self)@ == old(self)@,
                Err(Error::CompanyNotFound) => false,
            },
    {
        let sender: AccountId = match origin {
            Origin::Signed(who) => who,
            Origin::GovernanceAuthority => {
                return Err(Error::Unauthorized);
            },
        };
        match self.find_index(cui) {
            Some(_) => {
                return Err(Error::CompanyAlreadyExists);
            },
            None => {},
        }
        let company = Company {
            cui,
            denumire,
            cod_inmatriculare,
            euid,
            stare_firma,
            adresa_completa,
        };
        let ghost gc = company@;
        self.companies.push(company);
        self.events.push(Event::CompanyAdded { cui, sender });
        proof {
            let s0 = old(self)@;
            assert(self@.companies =~= s0.companies.push(gc));
            assert(self@.events =~= s0.events.push(Event::CompanyAdded { cui, sender }));
            assert forall|i: int, j: int|
                0 <= i < j < self@.companies.len() implies (#[trigger] self@.companies[i]).cui != (
            #[trigger] self@.companies[j]).cui by {
                if j < s0.companies.len() {
                } else {
                    assert(self@.companies[i] == s0.companies[i]);
                    assert(!has_cui(s0.companies, cui));
                }
            }
        }
        Ok(())
    }

    /// Updates, for a signed caller, each field of an existing record for
    /// which a new value is supplied, and emits `CompanyUpdated`. The key
    /// itself never changes.
    pub fn update_company(
        &mut self,
        origin: Origin,
        cui: u16,
        denumire: Option<Vec<u8>>,
        cod_inmatriculare: Option<Vec<u8>>,
        euid: Option<Vec<u8>>,
        stare_firma: Option<Vec<u8>>,
        adresa_completa: Option<Vec<u8>>,
    ) -> (r: Result<(), Error>)
        requires
            old(self).wf(),
        ensures
            final(self).wf(),
            match r {
                Ok(()) => origin matches Origin::Signed(sender) && has_cui(
                    old(self)@.companies,
                    cui,
                ) && final(self)@.companies == old(self)@.companies.update(
                    index_of_cui(old(self)@.companies, cui),
                    merged(
                        company_at(old(self)@.companies, cui),
                        opt_bytes(denumire),
                        opt_bytes(cod_inmatriculare),
                        opt_bytes(euid),
                        opt_bytes(stare_firma),
                        opt_bytes(adresa_completa),
                    ),
                ) && final(self)@.events == old(self)@.events.push(
                    Event::CompanyUpdated { cui, sender },
                ),
                Err(Error::Unauthorized) => !(origin is Signed) && final(self)@ == old(self)@,
                Err(Error::CompanyNotFound) => origin is Signed && !has_cui(
                    old(self)@.companies,
                    cui,
                ) && final(self)@ == old(self)@,
                Err(Error::CompanyAlreadyExists) => false,
            },
    {
        let sender: AccountId = match origin {
            Origin::Signed(who) => who,
            Origin::GovernanceAuthority => {
                return Err(Error::Unauthorized);
            },
        };
        let i = match self.find_index(cui) {
            Some(i) => i,
            None => {
                return Err(Error::CompanyNotFound);
            },
        };
        let mut company = self.companies.remove(i);
        match denumire {
            Some(v) => {
                company.denumire = v;
            },
            None => {},
        }
        match cod_inmatriculare {
            Some(v) => {
                company.cod_inmatriculare = v;
            },
            None => {},
        }
        match euid {
            Some(v) => {
                company.euid = v;
            },
            None => {},
        }
        match stare_firma {
            Some(v) => {
                company.stare_firma = v;
            },
            None => {},
        }
        match adresa_completa {
            Some(v) => {
                company.adresa_completa = v;
            },
            None => {},
        }
        let ghost gc = company@;
        self.companies.insert(i, company);
        self.events.push(Event::CompanyUpdated { cui, sender });
        proof {
            let s0 = old(self)@;
            let j = index_of_cui(s0.companies, cui);
            assert(has_cui(s0.companies, cui)) by {
                assert(s0.companies[i as int].cui == cui);
            }
            assert(0 <= j < s0.companies.len() && s0.companies[j].cui == cui);
            assert(j == i as int) by {
                if j < i as int {
                    assert(s0.companies[j].cui != s0.companies[i as int].cui);
                } else if (i as int) < j {
                    assert(s0.companies[i as int].cui != s0.companies[j].cui);
                }
            }
            assert(self.companies@ =~= old(self).companies@.update(
                i as int,
                self.companies@[i as int],
            ));
            assert(gc == merged(
                company_at(s0.companies, cui),
                opt_bytes(denumire),
                opt_bytes(cod_inmatriculare),
                opt_bytes(euid),
                opt_bytes(stare_firma),
                opt_bytes(adresa_completa),
            ));
            assert(self@.companies =~= s0.companies.update(j, gc));
            assert(self@.events =~= s0.events.push(Event::CompanyUpdated { cui, sender }));
            assert forall|a: int, b: int|
                0 <= a < b < self@.companies.len() implies (#[trigger] self@.companies[a]).cui != (
            #[trigger] self@.companies[b]).cui by {
                assert(self@.companies[a].cui == s0.companies[a].cui);
                assert(self@.companies[b].cui == s0.companies[b].cui);
            }
        }
        Ok(())
    }

    /// Read-only lookup of a record by key; an unknown key yields `None`.
    pub fn get_company(&self, cui: u16) -> (r: Option<&Company>)
        requires
            self.wf(),
        ensures
            match r {
                Some(c) => has_cui(self@.companies, cui) && c@ == company_at(
                    self@.companies,
                    cui,
                ),
                None => !has_cui(self@.companies, cui),
            },
    {
        match self.find_index(cui) {
            Some(i) => {
                proof {
                    let j = index_of_cui(self@.companies, cui);
                    assert(has_cui(self@.companies, cui)) by {
                        assert(self@.companies[i as int].cui == cui);
                    }
                    assert(j == i as int) by {
                        if j < i as int {
                            assert(self@.companies[j].cui != self@.companies[i as int].cui);
                        } else if (i as int) < j {
                            assert(self@.companies[i as int].cui != self@.companies[j].cui);
                        }
                    }
                }
                Some(&self.companies[i])
            },
            None => None,
        }
    }

    /// The event log, in commit order.
    pub fn events(&self) -> (r: &Vec<Event>)
        ensures
            r@ == self@.events,
    {
        &self.events
    }
}

} // verus!
