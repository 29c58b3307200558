use mvd_core::medical::{get_medical_societies, MedicalSociety, MedicalSocietyRegistry};
use mvd_core::members::{
    create, delete, find_all, find_one, get_match_by_name, update, Member, MemberRegistry,
    QuerySearch, UpdateMemberBody, UserError,
};
use mvd_core::spaces;
use mvd_core::spaces::{CreateSpaceRepository, SpaceCreateRequest, SpaceError, SpaceQuery};
use mvd_core::users::ApiResponse;

fn member(name: &str, lastname: &str) -> Member {
    Member {
        id: 0,
        name: name.to_string(),
        lastname: lastname.to_string(),
        ci: "1234567".to_string(),
        birth_date: 11_000,
        phone: "099111222".to_string(),
        tutor_name: None,
        tutor_lastname: None,
        tutor_phone: None,
        observation: None,
        medical_society_id: 7,
        address: "Av. Principal 1".to_string(),
        created_at: 500,
        updated_at: 500,
    }
}

fn no_update() -> UpdateMemberBody {
    UpdateMemberBody {
        name: None,
        lastname: None,
        ci: None,
        birth_date: None,
        phone: None,
        tutor_name: None,
        tutor_lastname: None,
        tutor_phone: None,
        observation: None,
        medical_society_id: None,
        address: None,
    }
}

#[test]
fn member_crud_round_trip() {
    let mut registry = MemberRegistry::new(1);
    let created = create(&mut registry, member("John", "Doe")).expect("creation");
    assert_eq!(created.data.id, 1);
    assert_eq!(created.data.name, "John");

    let listed = find_all(&registry).expect("listing");
    assert_eq!(listed.status, "success");
    assert_eq!(listed.data.len(), 1);

    let found = find_one(&registry, 1).expect("lookup");
    assert_eq!(found.data.lastname, "Doe");
    let err = find_one(&registry, 2).expect_err("unknown id");
    assert_eq!(err, UserError::NotFound);

    let mut body = no_update();
    body.phone = Some("099999999".to_string());
    body.tutor_name = Some("Jane".to_string());
    let updated = update(&mut registry, 1, body, 900).expect("update");
    assert_eq!(updated.data.phone, "099999999");
    assert_eq!(updated.data.tutor_name, Some("Jane".to_string()));
    assert_eq!(updated.data.name, "John");
    assert_eq!(updated.data.created_at, 500);
    assert_eq!(updated.data.updated_at, 900);

    let err = update(&mut registry, 42, no_update(), 901).expect_err("unknown id");
    assert_eq!(err, UserError::NotFound);

    let deleted = delete(&mut registry, 1).expect("deletion");
    assert_eq!(deleted.status, "success");
    assert_eq!(find_all(&registry).expect("listing").data.len(), 0);
    let again = delete(&mut registry, 1).expect("deleting an unknown id still succeeds");
    assert_eq!(again.status, "success");
}

#[test]
fn member_update_keeps_absent_fields() {
    let mut m = member("John", "Doe");
    m.id = 3;
    let mut body = no_update();
    body.name = Some("Johnny".to_string());
    m.update_my_member(body);
    assert_eq!(m.name, "Johnny");
    assert_eq!(m.lastname, "Doe");
    assert_eq!(m.ci, "1234567");
    assert_eq!(m.id, 3);
    assert_eq!(m.tutor_name, None);
}

#[test]
fn member_search_matches_case_folded_prefixes() {
    let mut registry = MemberRegistry::new(1);
    create(&mut registry, member("John", "Doe")).expect("creation");
    create(&mut registry, member("johanna", "Dorn")).expect("creation");
    create(&mut registry, member("Mary", "Smith")).expect("creation");

    let q = QuerySearch { name: Some("JO".to_string()), lastname: None };
    let ApiResponse { status, data } = get_match_by_name(&registry, q).expect("search");
    assert_eq!(status, "success");
    assert_eq!(data.len(), 2);
    assert_eq!(data[0].name, "John");
    assert_eq!(data[1].name, "johanna");

    let q = QuerySearch { name: Some("jo".to_string()), lastname: Some("dor".to_string()) };
    let both = get_match_by_name(&registry, q).expect("search").data;
    assert_eq!(both.len(), 1);
    assert_eq!(both[0].lastname, "Dorn");

    let q = QuerySearch { name: None, lastname: Some("smi".to_string()) };
    let last_only = get_match_by_name(&registry, q).expect("search").data;
    assert_eq!(last_only.len(), 1);
    assert_eq!(last_only[0].name, "Mary");

    let q = QuerySearch { name: Some("hn".to_string()), lastname: None };
    assert_eq!(get_match_by_name(&registry, q).expect("infix must not match").data.len(), 0);

    let q = QuerySearch { name: None, lastname: None };
    let err = get_match_by_name(&registry, q).expect_err("empty search");
    assert_eq!(err, UserError::InternalServerError("No se ingresaron datos".to_string()));
}

#[test]
fn space_creation_enforces_name_uniqueness() {
    let mut repo = CreateSpaceRepository::new(1);
    let created = spaces::create(
        &mut repo,
        SpaceCreateRequest { name: "Sala Azul".to_string() },
        700,
    )
    .expect("creation");
    assert_eq!(created.id, 1);
    assert_eq!(created.name, "Sala Azul");
    assert_eq!(created.created_at, 700);

    let err = spaces::create(&mut repo, SpaceCreateRequest { name: "Sala Azul".to_string() }, 701)
        .expect_err("taken name");
    assert_eq!(
        err,
        SpaceError::InternalServerError("Space \"Sala Azul\" already exists".to_string())
    );

    let found = spaces::find_by_name(&repo, SpaceQuery { name: "Sala Azul".to_string() })
        .expect("lookup");
    assert_eq!(found.id, 1);
    let err = spaces::find_by_name(&repo, SpaceQuery { name: "Sala Roja".to_string() })
        .expect_err("unknown name");
    assert_eq!(err, SpaceError::NotFound);
}

#[test]
fn medical_society_listing_reports_every_record() {
    let mut registry = MedicalSocietyRegistry::new();
    let resp = get_medical_societies(&registry).expect("listing");
    assert_eq!(resp.status, "success");
    assert_eq!(resp.data.len(), 0);

    registry.add(MedicalSociety {
        id: 1,
        name: "MUCAM".to_string(),
        emergency_phone: "1234".to_string(),
        created_at: 10,
        updated_at: 10,
    });
    registry.add(MedicalSociety {
        id: 2,
        name: "CASMU".to_string(),
        emergency_phone: "5678".to_string(),
        created_at: 11,
        updated_at: 11,
    });
    let resp = get_medical_societies(&registry).expect("listing");
    assert_eq!(resp.data.len(), 2);
    assert_eq!(resp.data[0].name, "MUCAM");
    assert_eq!(resp.data[1].emergency_phone, "5678");
}

#[test]
fn api_response_wraps_data_under_a_success_status() {
    let resp = ApiResponse::new(41_u64);
    assert_eq!(resp.status, "success");
    assert_eq!(resp.data, 41);
}
