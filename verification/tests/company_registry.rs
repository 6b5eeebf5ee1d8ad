use bizix::company_registry::{Company, Error, Event, Pallet};
use bizix::proposals::Origin;

fn acme(p: &mut Pallet, sender: u64) {
    let r = p.add_company(
        Origin::Signed(sender),
        1234,
        b"Acme SRL".to_vec(),
        b"J40/1/2020".to_vec(),
        b"ROONRC.J40/1/2020".to_vec(),
        b"functiune".to_vec(),
        b"Bucuresti".to_vec(),
    );
    assert_eq!(r, Ok(()));
}

#[test]
fn add_then_get_returns_record() {
    let mut p = Pallet::new();
    acme(&mut p, 7);
    let c: &Company = p.get_company(1234).unwrap();
    assert_eq!(c.cui, 1234);
    assert_eq!(c.denumire, b"Acme SRL".to_vec());
    assert_eq!(c.cod_inmatriculare, b"J40/1/2020".to_vec());
    assert_eq!(c.euid, b"ROONRC.J40/1/2020".to_vec());
    assert_eq!(c.stare_firma, b"functiune".to_vec());
    assert_eq!(c.adresa_completa, b"Bucuresti".to_vec());
    assert_eq!(p.events(), &vec![Event::CompanyAdded { cui: 1234, sender: 7 }]);
    assert!(p.get_company(99).is_none());
}

#[test]
fn add_duplicate_key_is_rejected() {
    let mut p = Pallet::new();
    acme(&mut p, 7);
    let r = p.add_company(
        Origin::Signed(8),
        1234,
        b"Other".to_vec(),
        b"X".to_vec(),
        b"Y".to_vec(),
        b"Z".to_vec(),
        b"W".to_vec(),
    );
    assert_eq!(r, Err(Error::CompanyAlreadyExists));
    assert_eq!(p.get_company(1234).unwrap().denumire, b"Acme SRL".to_vec());
    assert_eq!(p.events().len(), 1);
}

#[test]
fn add_requires_signed_caller() {
    let mut p = Pallet::new();
    let r = p.add_company(
        Origin::GovernanceAuthority,
        1234,
        b"Acme SRL".to_vec(),
        b"J40/1/2020".to_vec(),
        b"ROONRC.J40/1/2020".to_vec(),
        b"functiune".to_vec(),
        b"Bucuresti".to_vec(),
    );
    assert_eq!(r, Err(Error::Unauthorized));
    assert!(p.get_company(1234).is_none());
}

#[test]
fn update_changes_only_supplied_fields() {
    let mut p = Pallet::new();
    acme(&mut p, 7);
    let r = p.update_company(
        Origin::Signed(9),
        1234,
        Some(b"Acme Renamed SRL".to_vec()),
        None,
        None,
        Some(b"radiata".to_vec()),
        None,
    );
    assert_eq!(r, Ok(()));
    let c = p.get_company(1234).unwrap();
    assert_eq!(c.cui, 1234);
    assert_eq!(c.denumire, b"Acme Renamed SRL".to_vec());
    assert_eq!(c.cod_inmatriculare, b"J40/1/2020".to_vec());
    assert_eq!(c.euid, b"ROONRC.J40/1/2020".to_vec());
    assert_eq!(c.stare_firma, b"radiata".to_vec());
    assert_eq!(c.adresa_completa, b"Bucuresti".to_vec());
    assert_eq!(
        p.events().last().unwrap(),
        &Event::CompanyUpdated { cui: 1234, sender: 9 }
    );
}

#[test]
fn update_unknown_key_is_rejected() {
    let mut p = Pallet::new();
    acme(&mut p, 7);
    let r = p.update_company(
        Origin::Signed(9),
        4321,
        Some(b"Nobody".to_vec()),
        None,
        None,
        None,
        None,
    );
    assert_eq!(r, Err(Error::CompanyNotFound));
    assert_eq!(p.events().len(), 1);
}

#[test]
fn update_requires_signed_caller() {
    let mut p = Pallet::new();
    acme(&mut p, 7);
    let r = p.update_company(
        Origin::GovernanceAuthority,
        1234,
        Some(b"Nobody".to_vec()),
        None,
        None,
        None,
        None,
    );
    assert_eq!(r, Err(Error::Unauthorized));
    assert_eq!(p.get_company(1234).unwrap().denumire, b"Acme SRL".to_vec());
}

#[test]
fn records_with_distinct_keys_coexist() {
    let mut p = Pallet::new();
    acme(&mut p, 7);
    let r = p.add_company(
        Origin::Signed(7),
        5678,
        b"Beta SA".to_vec(),
        b"J12/9/2021".to_vec(),
        b"ROONRC.J12/9/2021".to_vec(),
        b"functiune".to_vec(),
        b"Cluj".to_vec(),
    );
    assert_eq!(r, Ok(()));
    assert_eq!(p.get_company(1234).unwrap().denumire, b"Acme SRL".to_vec());
    assert_eq!(p.get_company(5678).unwrap().denumire, b"Beta SA".to_vec());
}
