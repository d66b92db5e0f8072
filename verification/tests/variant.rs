use acala_service::variant::{has_prefix, has_suffix, IdentifyVariant};

#[test]
fn acala_and_wendala_ids_are_acala() {
    assert!("acala".is_acala());
    assert!("acala-dev".is_acala());
    assert!("wendala".is_acala());
    assert!("wendala-testnet".is_acala());
    assert!(!"acal".is_acala());
    assert!(!"xacala".is_acala());
    assert!(!"karura".is_acala());
}

#[test]
fn karura_ids_are_karura() {
    assert!("karura".is_karura());
    assert!("karura-dev".is_karura());
    assert!(!"kar".is_karura());
    assert!(!"mandala".is_karura());
}

#[test]
fn mandala_ids_are_mandala() {
    assert!("mandala".is_mandala());
    assert!("mandala-dev".is_mandala());
    assert!(!"Mandala".is_mandala());
    assert!(!"acala".is_mandala());
}

#[test]
fn dev_is_a_suffix() {
    assert!("mandala-dev".is_dev());
    assert!("dev".is_dev());
    assert!(!"dev-mandala".is_dev());
    assert!(!"".is_dev());
    assert!(!"de".is_dev());
}

#[test]
fn empty_id_is_no_network() {
    assert!(!"".is_acala());
    assert!(!"".is_karura());
    assert!(!"".is_mandala());
}

#[test]
fn each_id_names_at_most_one_network() {
    for id in ["acala", "wendala", "karura", "mandala", "mandala-dev", "polkadot", ""] {
        let n = [id.is_acala(), id.is_karura(), id.is_mandala()].iter().filter(|b| **b).count();
        assert!(n <= 1, "{id}");
    }
}

#[test]
fn prefix_and_suffix_on_unicode() {
    assert!(has_prefix("mandalé-dev", "mandal"));
    assert!(!has_prefix("mandalé", "mandala"));
    assert!(has_suffix("écu-dév", "dév"));
    assert!(has_prefix("abc", ""));
    assert!(has_suffix("abc", ""));
    assert!(!has_suffix("c", "abc"));
}
