use profile_api::model::{DataError, Profile};
use profile_api::param::{as_nullable_param, as_param, ParameterValue};
use profile_api::statement::{Placeholders, Statement, StatementKind};

fn profile(id: Option<&str>, handle: &str, avatar: Option<&str>) -> Profile {
    Profile {
        id: id.map(|s| s.to_string()),
        handle: handle.to_string(),
        avatar: avatar.map(|s| s.to_string()),
    }
}

fn text(s: &str) -> ParameterValue {
    ParameterValue::Str(s.to_string())
}

#[test]
fn as_param_keeps_text_and_absence() {
    assert_eq!(as_param(&Some("a.png".to_string())), Some(text("a.png")));
    assert_eq!(as_param(&Some(String::new())), Some(text("")));
    assert_eq!(as_param(&None), None);
}

#[test]
fn as_nullable_param_turns_absence_into_null() {
    assert_eq!(as_nullable_param(&Some("a.png".to_string())), text("a.png"));
    assert_eq!(as_nullable_param(&None), ParameterValue::DbNull);
}

#[test]
fn numbered_texts_are_exact() {
    let n = Placeholders::Numbered;
    assert_eq!(
        Statement::text(StatementKind::Insert, n),
        "INSERT INTO profiles (id, handle, avatar) VALUES ($1, $2, $3)"
    );
    assert_eq!(
        Statement::text(StatementKind::SelectByHandle, n),
        "SELECT id, handle, avatar from profiles WHERE handle=$1"
    );
    assert_eq!(
        Statement::text(StatementKind::UpdateById, n),
        "UPDATE profiles SET handle=$1, avatar=$2 WHERE id=$3"
    );
    assert_eq!(
        Statement::text(StatementKind::UpdateAvatarByHandle, n),
        "UPDATE profiles SET avatar=$1 WHERE handle=$2"
    );
    assert_eq!(Statement::text(StatementKind::DeleteById, n), "DELETE FROM profiles WHERE id=$1");
    assert_eq!(
        Statement::text(StatementKind::DeleteByHandle, n),
        "DELETE FROM profiles WHERE handle=$1"
    );
}

#[test]
fn positional_texts_are_exact() {
    let p = Placeholders::Positional;
    assert_eq!(
        Statement::text(StatementKind::Insert, p),
        "INSERT INTO profiles (id, handle, avatar) VALUES (?, ?, ?)"
    );
    assert_eq!(
        Statement::text(StatementKind::SelectByHandle, p),
        "SELECT id, handle, avatar from profiles WHERE handle=?"
    );
    assert_eq!(
        Statement::text(StatementKind::UpdateById, p),
        "UPDATE profiles SET handle=?, avatar=? WHERE id=?"
    );
    assert_eq!(
        Statement::text(StatementKind::UpdateAvatarByHandle, p),
        "UPDATE profiles SET avatar=? WHERE handle=?"
    );
    assert_eq!(Statement::text(StatementKind::DeleteById, p), "DELETE FROM profiles WHERE id=?");
    assert_eq!(
        Statement::text(StatementKind::DeleteByHandle, p),
        "DELETE FROM profiles WHERE handle=?"
    );
}

fn placeholders_in(sql: &str, style: Placeholders) -> usize {
    match style {
        Placeholders::Numbered => sql.matches('$').count(),
        Placeholders::Positional => sql.matches('?').count(),
    }
}

#[test]
fn every_statement_binds_as_many_values_as_it_has_placeholders() {
    for style in [Placeholders::Numbered, Placeholders::Positional] {
        for p in [
            profile(Some("1"), "alice", Some("a.png")),
            profile(Some("1"), "alice", None),
            profile(None, "alice", Some("a.png")),
            profile(None, "alice", None),
        ] {
            let mut statements = vec![
                p.update(style),
                p.delete(style),
                Profile::get_by_handle(&p.handle, style),
            ];
            if let Ok(insert) = p.insert(style) {
                statements.push(insert);
            }
            for s in statements {
                assert_eq!(placeholders_in(&s.sql, style), s.params.len());
            }
        }
    }
}

#[test]
fn insert_binds_id_handle_and_avatar() {
    let s = profile(Some("1"), "alice", Some("a.png")).insert(Placeholders::Numbered).unwrap();
    assert_eq!(s.sql, "INSERT INTO profiles (id, handle, avatar) VALUES ($1, $2, $3)");
    assert_eq!(s.params, vec![text("1"), text("alice"), text("a.png")]);
}

#[test]
fn insert_binds_null_for_absent_avatar() {
    let s = profile(Some("1"), "alice", None).insert(Placeholders::Positional).unwrap();
    assert_eq!(s.sql, "INSERT INTO profiles (id, handle, avatar) VALUES (?, ?, ?)");
    assert_eq!(s.params, vec![text("1"), text("alice"), ParameterValue::DbNull]);
}

#[test]
fn insert_without_id_is_refused_whatever_the_other_fields() {
    for style in [Placeholders::Numbered, Placeholders::Positional] {
        assert_eq!(profile(None, "alice", None).insert(style), Err(DataError::MissingId));
        assert_eq!(profile(None, "alice", Some("a.png")).insert(style), Err(DataError::MissingId));
        assert_eq!(profile(None, "", None).insert(style), Err(DataError::MissingId));
    }
}

#[test]
fn get_by_handle_binds_the_handle() {
    let s = Profile::get_by_handle("alice", Placeholders::Numbered);
    assert_eq!(s.sql, "SELECT id, handle, avatar from profiles WHERE handle=$1");
    assert_eq!(s.params, vec![text("alice")]);
}

#[test]
fn update_with_id_rewrites_handle_and_avatar_by_id() {
    let s = profile(Some("7"), "alice", Some("a.png")).update(Placeholders::Numbered);
    assert_eq!(s.sql, "UPDATE profiles SET handle=$1, avatar=$2 WHERE id=$3");
    assert_eq!(s.params, vec![text("alice"), text("a.png"), text("7")]);

    let s = profile(Some("7"), "alice", None).update(Placeholders::Positional);
    assert_eq!(s.sql, "UPDATE profiles SET handle=?, avatar=? WHERE id=?");
    assert_eq!(s.params, vec![text("alice"), ParameterValue::DbNull, text("7")]);
}

#[test]
fn update_without_id_rewrites_avatar_by_handle() {
    let s = profile(None, "alice", Some("a.png")).update(Placeholders::Numbered);
    assert_eq!(s.sql, "UPDATE profiles SET avatar=$1 WHERE handle=$2");
    assert_eq!(s.params, vec![text("a.png"), text("alice")]);

    let s = profile(None, "alice", None).update(Placeholders::Numbered);
    assert_eq!(s.params, vec![ParameterValue::DbNull, text("alice")]);
}

#[test]
fn delete_with_id_removes_by_id() {
    let s = profile(Some("7"), "alice", Some("a.png")).delete(Placeholders::Numbered);
    assert_eq!(s.sql, "DELETE FROM profiles WHERE id=$1");
    assert_eq!(s.params, vec![text("7")]);
}

#[test]
fn delete_without_id_removes_by_handle() {
    let s = profile(None, "alice", Some("a.png")).delete(Placeholders::Numbered);
    assert_eq!(s.sql, "DELETE FROM profiles WHERE handle=$1");
    assert_eq!(s.params, vec![text("alice")]);

    let s = profile(None, "alice", None).delete(Placeholders::Positional);
    assert_eq!(s.sql, "DELETE FROM profiles WHERE handle=?");
    assert_eq!(s.params, vec![text("alice")]);
}
