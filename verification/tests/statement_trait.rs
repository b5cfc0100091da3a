use gen_sql_statement::sql_statement_trait::core_trait::{field_positions, FieldNames, SqlStatement};
use gen_sql_statement::sql_statement_trait::error::Error;

struct User {
    names: Vec<&'static str>,
}

impl SqlStatement for User {
    // a specification item: it has no run-time value and is never called
    fn spec_field_names(&self) -> FieldNames {
        unreachable!()
    }
    fn create_table_sql(&self) -> &'static str {
        "CREATE TABLE IF NOT EXISTS user (id INTEGER PRIMARY KEY, name TEXT, age INTEGER )"
    }
    fn get_field_names(&self) -> &Vec<&'static str> {
        &self.names
    }
    fn insert_sql_statement(&self, _user_list: Vec<&'static str>) -> Result<&'static str, Error> {
        Err(Error::SqlError("not generated".to_string()))
    }
    fn delete_sql_statement(&self, _where_clause: &'static str) -> Result<String, Error> {
        Err(Error::SqlError("not generated".to_string()))
    }
    fn select_sql_statement(
        &self,
        _select_columns: Option<Vec<&'static str>>,
        _where_clause: &'static str,
    ) -> Result<&'static str, Error> {
        Err(Error::InvalidInput("not generated".to_string()))
    }
}

#[test]
fn positions_of_known_fields() {
    let user = User { names: vec!["id", "name", "age"] };
    assert_eq!(user.get_field_positions(vec!["age", "id"]), Ok(vec![2, 0]));
    assert_eq!(user.get_field_positions(vec![]), Ok(vec![]));
    assert_eq!(user.get_field_positions(vec!["name", "name"]), Ok(vec![1, 1]));
}

#[test]
fn unknown_fields_are_refused() {
    let user = User { names: vec!["id", "name", "age"] };
    assert_eq!(
        user.get_field_positions(vec!["age", "email", "x\"y"]),
        Err(Error::InvalidFieldName("Invalid field name: [\"email\", \"x\\\"y\"]".to_string()))
    );
}

#[test]
fn positions_point_at_the_first_equal_name() {
    let names = vec!["a", "b", "a"];
    assert_eq!(field_positions(&names, &vec!["a", "b"]), Ok(vec![0, 1]));
    assert_eq!(
        field_positions(&names, &vec!["c"]),
        Err(Error::InvalidFieldName("Invalid field name: [\"c\"]".to_string()))
    );
}
