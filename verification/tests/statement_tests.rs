use plant_ingest::models::{PlantData, User};
use plant_ingest::statement::build;

const USER_TEMPLATE: &str = "INSERT INTO testing.users(email, first_name, last_name, username) VALUES ($1, $2, $3, $4) RETURNING $table_fields;";

const PLANT_TEMPLATE: &str = "INSERT INTO testing.plantdata(plant_id, created_at, updated_at, planned_data, unplanned_data) VALUES ($1, $2, $3, $4, $5) RETURNING $table_fields;";

#[test]
fn build_substitutes_user_placeholder() {
    let stmt = build(USER_TEMPLATE, &User::sql_table_fields());
    assert_eq!(
        stmt,
        "INSERT INTO testing.users(email, first_name, last_name, username) VALUES ($1, $2, $3, $4) RETURNING  users.email ,  users.first_name ,  users.last_name ,  users.username ;"
    );
}

#[test]
fn build_substitutes_plant_placeholder() {
    let stmt = build(PLANT_TEMPLATE, &PlantData::sql_table_fields());
    assert_eq!(
        stmt,
        "INSERT INTO testing.plantdata(plant_id, created_at, updated_at, planned_data, unplanned_data) VALUES ($1, $2, $3, $4, $5) RETURNING  plantdata.plant_id ,  plantdata.created_at ,  plantdata.updated_at ,  plantdata.planned_data ,  plantdata.unplanned_data ;"
    );
}

#[test]
fn build_is_deterministic() {
    let first = build(USER_TEMPLATE, "a, b, c");
    let second = build(USER_TEMPLATE, "a, b, c");
    assert_eq!(first, second);
}

#[test]
fn build_with_empty_field_list() {
    let stmt = build("RETURNING $table_fields;", "");
    assert_eq!(stmt, "RETURNING ;");
}

#[test]
fn build_without_placeholder_keeps_template() {
    let stmt = build("SELECT * FROM testing.plantdata ORDER BY created_at DESC;", "x, y");
    assert_eq!(stmt, "SELECT * FROM testing.plantdata ORDER BY created_at DESC;");
}

#[test]
fn build_replaces_every_occurrence() {
    let stmt = build("$table_fields|$table_fields", "c1");
    assert_eq!(stmt, "c1|c1");
}

#[test]
fn user_table_fields_are_qualified_and_ordered() {
    assert_eq!(
        User::sql_table_fields(),
        " users.email ,  users.first_name ,  users.last_name ,  users.username "
    );
}

#[test]
fn plant_table_fields_are_qualified_and_ordered() {
    assert_eq!(
        PlantData::sql_table_fields(),
        " plantdata.plant_id ,  plantdata.created_at ,  plantdata.updated_at ,  plantdata.planned_data ,  plantdata.unplanned_data "
    );
}
