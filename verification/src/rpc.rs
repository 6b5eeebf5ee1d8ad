//! The read-only query adapters: the outward request/response surface over
//! the governance core and the company registry.
//!
//! Each adapter is created over a client handle and serves the queries of
//! its protocol. Internal failure is collapsed into one generic error code
//! carrying a debug string; callers across the boundary cannot distinguish
//! error kinds programmatically.

use crate::company_registry;
use crate::company_registry::{company_at, has_cui};
use crate::proposals::{clone_bytes, AccountId};
use vstd::prelude::*;

verus! {

/// The single error code the adapters report outward.
pub const RUNTIME_ERROR: i32 = 1;

/// The fixed placeholder value served by the governance `getValue` query.
pub const RUNTIME_PLACEHOLDER_VALUE: u32 = 0;

/// The fixed placeholder fee served by the `getQueryFee` query; the
/// payment-gated lookup it belongs to is a stub.
pub const QUERY_FEE: u64 = 0;

/// The generic error the adapters hand outward: one numeric code, a short
/// label, and a free-text detail string only humans can interpret.
#[derive(Clone, PartialEq, Eq, Debug)]
pub struct RpcError {
    pub code: i32,
    pub message: String,
    pub detail: Option<String>,
}

/// Collapses an internal failure into the one generic outward error:
/// code [`RUNTIME_ERROR`], labeled "Runtime error", carrying `detail`.
pub fn runtime_error(detail: String) -> (r: RpcError)
    ensures
        r.code == RUNTIME_ERROR,
        r.message@ == "Runtime error"@,
        r.detail matches Some(d) && d@ == detail@,
{
    RpcError { code: RUNTIME_ERROR, message: "Runtime error".to_owned(), detail: Some(detail) }
}

/// What `String::from_utf8_lossy` returns for a byte string; the result
/// depends on the bytes alone.
pub uninterp spec fn utf8_lossy_of(bytes: Seq<u8>) -> Seq<char>;

/// Relies on `String::from_utf8_lossy`: decodes UTF-8, substituting the
/// replacement character for invalid sequences; an empty input gives an
/// empty string.
#[verifier::external_body]
fn utf8_lossy(bytes: &Vec<u8>) -> (r: String)
    ensures
        r@ == utf8_lossy_of(bytes@),
        bytes@.len() == 0 ==> r@.len() == 0,
{
    String::from_utf8_lossy(bytes.as_slice()).into_owned()
}

/// The decimal digits of `n`, most significant first.
pub open spec fn decimal_of(n: nat) -> Seq<char>
    decreases n,
{
    if n < 10 {
        seq![decimal_digit(n)]
    } else {
        decimal_of(n / 10).push(decimal_digit(n % 10))
    }
}

/// The character of one decimal digit.
pub open spec fn decimal_digit(d: nat) -> char {
    if d == 0 {
        '0'
    } else if d == 1 {
        '1'
    } else if d == 2 {
        '2'
    } else if d == 3 {
        '3'
    } else if d == 4 {
        '4'
    } else if d == 5 {
        '5'
    } else if d == 6 {
        '6'
    } else if d == 7 {
        '7'
    } else if d == 8 {
        '8'
    } else {
        '9'
    }
}

/// Relies on `u64`'s `Display` implementation (through `ToString`): a `u64`
/// formats as its decimal digits, most significant first, with no sign and
/// no padding.
#[verifier::external_body]
fn account_to_string(a: AccountId) -> (r: String)
    ensures
        r@ == decimal_of(a as nat),
{
    a.to_string()
}

/// Marker for identity types that may cross the query boundary.
pub trait AccountIdSerialize: Clone {

}

impl AccountIdSerialize for AccountId {

}

/// A company record as it crosses the query boundary: the stored fields
/// plus the owning account, where the payment-gated feature records one.
#[derive(Clone, PartialEq, Eq, Debug)]
pub struct Company {
    pub cui: u16,
    pub denumire: Vec<u8>,
    pub cod_inmatriculare: Vec<u8>,
    pub euid: Vec<u8>,
    pub stare_firma: Vec<u8>,
    pub adresa_completa: Vec<u8>,
    pub owner: Option<AccountId>,
}

/// Abstract value of a boundary [`Company`] record.
#[verifier::ext_equal]
pub struct CompanyRecordView {
    pub cui: u16,
    pub denumire: Seq<u8>,
    pub cod_inmatriculare: Seq<u8>,
    pub euid: Seq<u8>,
    pub stare_firma: Seq<u8>,
    pub adresa_completa: Seq<u8>,
    pub owner: Option<AccountId>,
}

impl View for Company {
    type V = CompanyRecordView;

    open spec fn view(&self) -> CompanyRecordView {
        CompanyRecordView {
            cui: self.cui,
            denumire: self.denumire@,
            cod_inmatriculare: self.cod_inmatriculare@,
            euid: self.euid@,
            stare_firma: self.stare_firma@,
            adresa_completa: self.adresa_completa@,
            owner: self.owner,
        }
    }
}

/// The boundary record built from a stored company: the stored fields
/// carried through unchanged; no owner, as the store records none.
pub open spec fn record_of(c: company_registry::CompanyView) -> CompanyRecordView {
    CompanyRecordView {
        cui: c.cui,
        denumire: c.denumire,
        cod_inmatriculare: c.cod_inmatriculare,
        euid: c.euid,
        stare_firma: c.stare_firma,
        adresa_completa: c.adresa_completa,
        owner: None,
    }
}

/// A company record in the outward response form: text fields decoded from
/// the stored bytes, the owner formatted as a decimal account string.
#[derive(Clone, PartialEq, Eq, Debug)]
pub struct CompanyData {
    pub cui: u16,
    pub denumire: String,
    pub cod_inmatriculare: String,
    pub euid: String,
    pub stare_firma: String,
    pub adresa_completa: String,
    pub owner: Option<String>,
}

/// Abstract value of a [`CompanyData`].
#[verifier::ext_equal]
pub struct CompanyDataView {
    pub cui: u16,
    pub denumire: Seq<char>,
    pub cod_inmatriculare: Seq<char>,
    pub euid: Seq<char>,
    pub stare_firma: Seq<char>,
    pub adresa_completa: Seq<char>,
    pub owner: Option<Seq<char>>,
}

impl View for CompanyData {
    type V = CompanyDataView;

    open spec fn view(&self) -> CompanyDataView {
        CompanyDataView {
            cui: self.cui,
            denumire: self.denumire@,
            cod_inmatriculare: self.cod_inmatriculare@,
            euid: self.euid@,
            stare_firma: self.stare_firma@,
            adresa_completa: self.adresa_completa@,
            owner: match self.owner {
                Some(s) => Some(s@),
                None => None,
            },
        }
    }
}

/// The response form of a boundary record: each text field is the lossy
/// UTF-8 decoding of the stored bytes, the owner its decimal rendering.
pub open spec fn data_of(c: CompanyRecordView) -> CompanyDataView {
    CompanyDataView {
        cui: c.cui,
        denumire: utf8_lossy_of(c.denumire),
        cod_inmatriculare: utf8_lossy_of(c.cod_inmatriculare),
        euid: utf8_lossy_of(c.euid),
        stare_firma: utf8_lossy_of(c.stare_firma),
        adresa_completa: utf8_lossy_of(c.adresa_completa),
        owner: match c.owner {
            Some(a) => Some(decimal_of(a as nat)),
            None => None,
        },
    }
}

/// Converts a boundary record to its outward response form.
pub fn company_to_data(c: &Company) -> (r: CompanyData)
    ensures
        r@ == data_of(c@),
{
    let owner = match &c.owner {
        Some(a) => Some(account_to_string(*a)),
        None => None,
    };
    let r = CompanyData {
        cui: c.cui,
        denumire: utf8_lossy(&c.denumire),
        cod_inmatriculare: utf8_lossy(&c.cod_inmatriculare),
        euid: utf8_lossy(&c.euid),
        stare_firma: utf8_lossy(&c.stare_firma),
        adresa_completa: utf8_lossy(&c.adresa_completa),
        owner,
    };
    proof {
        assert(r@ =~~= data_of(c@));
    }
    r
}

/// The governance query adapter, created over a client handle.
pub struct BizixPallet<C> {
    client: C,
}

impl<C> BizixPallet<C> {
    /// The client handle the adapter was created over.
    pub closed spec fn client(&self) -> C {
        self.client
    }

    /// Creates a new adapter over the given client.
    pub fn new(client: C) -> (r: Self)
        ensures
            r.client() == client,
    {
        BizixPallet { client }
    }

    /// Serves the `getValue` query. The runtime exposes a fixed
    /// placeholder value, so the call always succeeds with it.
    pub fn get_value(&self) -> (r: Result<u32, RpcError>)
        ensures
            r == Ok::<u32, RpcError>(RUNTIME_PLACEHOLDER_VALUE),
    {
        Ok(RUNTIME_PLACEHOLDER_VALUE)
    }
}

/// The company-registry query adapter, created over a client handle.
pub struct CompanyRegistry<C> {
    client: C,
}

impl<C> CompanyRegistry<C> {
    /// The client handle the adapter was created over.
    pub closed spec fn client(&self) -> C {
        self.client
    }

    /// Creates a new adapter over the given client.
    pub fn new(client: C) -> (r: Self)
        ensures
            r.client() == client,
    {
        CompanyRegistry { client }
    }
}

impl CompanyRegistry<company_registry::Pallet> {
    /// Serves the `getCompanyData` query: looks the record up in the
    /// backing store and converts it to the outward response form. The
    /// `caller` belongs to the payment-gated variant of the query, a stub,
    /// and is not consulted.
    pub fn get_company_data(&self, cui: u16, _caller: AccountId) -> (r: Result<
        Option<CompanyData>,
        RpcError,
    >)
        requires
            self.client().wf(),
        ensures
            has_cui(self.client()@.companies, cui) ==> (r matches Ok(o) && (o matches Some(d)
                && d@ == data_of(record_of(company_at(self.client()@.companies, cui))))),
            !has_cui(self.client()@.companies, cui) ==> r == Ok::<Option<CompanyData>, RpcError>(
                None,
            ),
    {
        match self.client.get_company(cui) {
            Some(c) => {
                let record = Company {
                    cui: c.cui,
                    denumire: clone_bytes(&c.denumire),
                    cod_inmatriculare: clone_bytes(&c.cod_inmatriculare),
                    euid: clone_bytes(&c.euid),
                    stare_firma: clone_bytes(&c.stare_firma),
                    adresa_completa: clone_bytes(&c.adresa_completa),
                    owner: None,
                };
                proof {
                    assert(record@ =~~= record_of(company_at(self.client()@.companies, cui)));
                }
                Ok(Some(company_to_data(&record)))
            },
            None => Ok(None),
        }
    }

    /// Serves the `getQueryFee` query: the fee of the payment-gated lookup,
    /// served as a fixed placeholder while that lookup remains a stub.
    pub fn get_query_fee(&self) -> (r: Result<u64, RpcError>)
        ensures
            r == Ok::<u64, RpcError>(QUERY_FEE),
    {
        Ok(QUERY_FEE)
    }
}

} // verus!
