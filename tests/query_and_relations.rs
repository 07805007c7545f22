use rust_eloquent::eloquent::Eloquent;
use rust_eloquent::model::{Model, TableInfo};
use rust_eloquent::query::{Pagination, Query};
use rust_eloquent::naming::{foreign_key_of, pivot_table_of, trim_trailing_s_of};
use rust_eloquent::relations::belongs_to_many::{sync_changes, toggle_changes, BelongsToMany};
use rust_eloquent::relations::has_morph_many::HasMorphMany;
use rust_eloquent::relations::has_one::HasOne;
use rust_eloquent::value::int_to_text;
use rust_eloquent::value::{SqlScalar, SqlValue};

#[derive(Debug, Clone)]
struct User {
    id: Option<i64>,
}

impl Model for User {
    fn table_name() -> &'static str {
        "users"
    }

    fn primary_key() -> &'static str {
        "id"
    }

    fn get_key_value(&self) -> Option<SqlValue> {
        self.id.map(SqlValue::Int)
    }

    fn get_attribute(&self, column: &str) -> Option<SqlValue> {
        if column == "id" {
            self.get_key_value()
        } else {
            None
        }
    }

    fn fillable() -> Vec<&'static str> {
        vec!["name", "email"]
    }
}

impl Eloquent for User {}

#[derive(Debug, Clone)]
struct Post {
    id: Option<i64>,
    user_id: Option<i64>,
}

impl Model for Post {
    fn table_name() -> &'static str {
        "posts"
    }

    fn primary_key() -> &'static str {
        "id"
    }

    fn get_key_value(&self) -> Option<SqlValue> {
        self.id.map(SqlValue::Int)
    }

    fn get_attribute(&self, column: &str) -> Option<SqlValue> {
        match column {
            "id" => self.id.map(SqlValue::Int),
            "user_id" => self.user_id.map(SqlValue::Int),
            _ => None,
        }
    }

    fn fillable() -> Vec<&'static str> {
        vec!["title", "user_id"]
    }
}

impl Eloquent for Post {}

#[derive(Debug, Clone)]
struct Role {
    code: Option<String>,
}

impl Model for Role {
    fn table_name() -> &'static str {
        "roles"
    }

    fn primary_key() -> &'static str {
        "code"
    }

    fn get_key_value(&self) -> Option<SqlValue> {
        self.code.clone().map(SqlValue::Text)
    }

    fn get_attribute(&self, _column: &str) -> Option<SqlValue> {
        None
    }

    fn fillable() -> Vec<&'static str> {
        vec!["code"]
    }
}

impl Eloquent for Role {}

fn users() -> Query<User> {
    Query::new()
}

#[test]
fn where_clause_renders_quoted_string() {
    let q = users().where_clause("status", "active");
    assert_eq!(q.to_sql(), "SELECT * FROM users WHERE status = 'active'");
}

#[test]
fn or_where_takes_its_own_connective() {
    let q = users()
        .where_clause("status", "active")
        .or_where("role", "=", SqlValue::Text("admin".to_string()));
    assert_eq!(q.to_sql(), "SELECT * FROM users WHERE status = 'active' OR role = 'admin'");
}

#[test]
fn clauses_render_in_fixed_order() {
    let q = users()
        .offset(20)
        .limit(5)
        .order_by_desc("created_at")
        .having("total", ">", SqlValue::Int(3))
        .group_by(vec!["status"])
        .where_op("age", ">", SqlValue::Int(18))
        .join("posts", "posts.user_id", "=", "users.id")
        .select(vec!["status", "COUNT(*) AS total"]);
    assert_eq!(
        q.to_sql(),
        "SELECT status, COUNT(*) AS total FROM users INNER JOIN posts ON posts.user_id = users.id \
         WHERE age > 18 GROUP BY status HAVING total > 3 ORDER BY created_at DESC LIMIT 5 OFFSET 20"
    );
}

#[test]
fn clause_order_does_not_depend_on_call_order() {
    let a = users().limit(3).where_clause("a", "1").order_by_asc("b");
    let b = users().order_by_asc("b").where_clause("a", "1").limit(3);
    assert_eq!(a.to_sql(), b.to_sql());
    assert_eq!(a.to_sql(), "SELECT * FROM users WHERE a = '1' ORDER BY b ASC LIMIT 3");
}

#[test]
fn paginate_second_page_of_twenty_five() {
    let p: Pagination<User> = Pagination::from_page(Vec::new(), 2, 10, 25);
    assert_eq!(p.last_page, 3);
    assert_eq!(p.from, 11);
    assert_eq!(p.to, 20);
    assert_eq!(p.current_page, 2);
    assert_eq!(p.per_page, 10);
    assert_eq!(p.total, 25);
}

#[test]
fn paginate_clamps_to_total() {
    let p: Pagination<User> = Pagination::from_page(Vec::new(), 2, 10, 15);
    assert_eq!(p.to, 15);
    assert_eq!(p.last_page, 2);
    assert_eq!(p.from, 11);
}

#[test]
fn paginate_past_the_end() {
    let p: Pagination<User> = Pagination::from_page(Vec::new(), 5, 10, 15);
    assert_eq!(p.from, 41);
    assert_eq!(p.to, 40);
    let empty: Pagination<User> = Pagination::from_page(Vec::new(), 1, 10, 0);
    assert_eq!(empty.last_page, 0);
    assert_eq!(empty.to, 0);
}

#[test]
fn for_page_sets_offset_and_limit() {
    assert_eq!(users().for_page(3, 10).to_sql(), "SELECT * FROM users LIMIT 10 OFFSET 20");
}

#[test]
fn limit_and_offset_overwrite() {
    assert_eq!(users().limit(5).limit(10).to_sql(), "SELECT * FROM users LIMIT 10");
    assert_eq!(users().offset(5).skip(7).to_sql(), "SELECT * FROM users OFFSET 7");
    assert_eq!(users().take(2).to_sql(), "SELECT * FROM users LIMIT 2");
}

#[test]
fn has_many_without_owner_key_is_unconstrained() {
    let user = User { id: None };
    let q = user.has_many::<Post>(None, None).get_query();
    assert_eq!(q.to_sql(), "SELECT * FROM posts");
}

#[test]
fn has_many_with_owner_key_constrains_foreign_key() {
    let user = User { id: Some(5) };
    let q = user.has_many::<Post>(None, None).get_query();
    assert_eq!(q.to_sql(), "SELECT * FROM posts WHERE user_id = '5'");
    let limited = user.has_many::<Post>(Some("author_id".to_string()), None).limit(2);
    assert_eq!(limited.to_sql(), "SELECT * FROM posts WHERE author_id = '5' LIMIT 2");
}

#[test]
fn has_one_constrains_foreign_key() {
    let user = User { id: Some(8) };
    let q = user.has_one::<Post>(None, None).where_clause("title", "x");
    assert_eq!(q.to_sql(), "SELECT * FROM posts WHERE user_id = '8' AND title = 'x'");
    let none = User { id: None }.has_one::<Post>(None, None).get_query();
    assert_eq!(none.to_sql(), "SELECT * FROM posts");
}

#[test]
fn has_one_stamps_foreign_key_on_create() {
    let stamped = User { id: Some(4) }.has_one::<Post>(None, None).key_attributes();
    assert_eq!(stamped.len(), 1);
    assert_eq!(stamped[0].0, "user_id");
    assert!(matches!(stamped[0].1, SqlValue::Int(4)));
    assert!(User { id: None }.has_many::<Post>(None, None).key_attributes().is_empty());
}

#[test]
fn belongs_to_reads_foreign_key_off_the_child() {
    let post = Post { id: Some(1), user_id: Some(9) };
    let rel = post.belongs_to::<User>(None, None);
    assert!(matches!(rel.get_foreign_key_value(), Some(SqlValue::Int(9))));
    assert!(!rel.is_loaded());
    assert_eq!(rel.get_query().to_sql(), "SELECT * FROM users WHERE id = '9'");
    let orphan = Post { id: Some(1), user_id: None }.belongs_to::<User>(None, None);
    assert_eq!(orphan.get_query().to_sql(), "SELECT * FROM users");
}

#[test]
fn belongs_to_many_joins_pivot() {
    let user = User { id: Some(3) };
    let q = user.belongs_to_many::<Role>(None, None, None, None, None).get_query();
    assert_eq!(
        q.to_sql(),
        "SELECT * FROM roles INNER JOIN roles_users ON roles_users.role_id = roles.code \
         WHERE roles_users.user_id = '3'"
    );
    let unsaved = User { id: None }.belongs_to_many::<Role>(None, None, None, None, None);
    assert_eq!(unsaved.get_query().to_sql(), "SELECT * FROM roles");
}

#[test]
fn belongs_to_many_pivot_columns() {
    let rel = User { id: Some(1) }
        .belongs_to_many::<Role>(Some("memberships".to_string()), None, None, None, None)
        .with_pivot(vec!["level"])
        .with_timestamps();
    let text = format!("{:?}", rel);
    assert!(text.contains("memberships"));
    assert!(text.contains("\"level\", \"created_at\", \"updated_at\""));
}

#[test]
fn sync_attaches_new_and_detaches_missing() {
    let changes = sync_changes(&vec![1, 2], &vec![2, 3]);
    assert_eq!(changes.attach, vec![3]);
    assert_eq!(changes.detach, vec![1]);
}

#[test]
fn toggle_flips_membership() {
    let changes = toggle_changes(&vec![1, 2], &vec![2, 3]);
    assert_eq!(changes.attach, vec![3]);
    assert_eq!(changes.detach, vec![2]);
}

#[test]
fn morph_one_constrains_type_and_id() {
    let user = User { id: Some(6) };
    let rel = user.morph_one::<Post>("imageable", None, None, None);
    assert_eq!(rel.get_morph_type(), "users");
    assert_eq!(
        rel.get_query().to_sql(),
        "SELECT * FROM posts WHERE imageable_type = 'users' AND imageable_id = '6'"
    );
}

#[test]
fn morph_many_without_key_keeps_type_constraint() {
    let user = User { id: None };
    let rel = user.morph_many::<Post>("commentable", None, None, None);
    assert_eq!(rel.get_query().to_sql(), "SELECT * FROM posts WHERE commentable_type = 'users'");
    let stamped = rel.key_attributes();
    assert_eq!(stamped.len(), 1);
    assert_eq!(stamped[0].0, "commentable_type");
    assert!(matches!(&stamped[0].1, SqlValue::Text(t) if t == "users"));
}

#[test]
fn where_in_renders_list() {
    let q = users().where_in("id", vec![SqlScalar::Int(1), SqlScalar::Int(2), SqlScalar::Int(3)]);
    assert_eq!(q.to_sql(), "SELECT * FROM users WHERE id IN (1, 2, 3)");
    let q = users().where_not_in("id", vec![SqlScalar::Int(4)]);
    assert_eq!(q.to_sql(), "SELECT * FROM users WHERE id NOT IN (4)");
}

#[test]
fn list_elements_render_by_kind() {
    let q = users().where_in(
        "x",
        vec![
            SqlScalar::Text("a".to_string()),
            SqlScalar::Int(-12),
            SqlScalar::Bool(true),
            SqlScalar::Null,
        ],
    );
    assert_eq!(q.to_sql(), "SELECT * FROM users WHERE x IN ('a', -12, NULL, NULL)");
    let empty = users().where_in("x", Vec::new());
    assert_eq!(empty.to_sql(), "SELECT * FROM users WHERE x IN ()");
}

#[test]
fn null_checks_have_no_operand() {
    let q = users().where_null("deleted_at").where_not_null("email");
    assert_eq!(q.to_sql(), "SELECT * FROM users WHERE deleted_at IS NULL AND email IS NOT NULL");
}

#[test]
fn scalar_values_render_as_literals() {
    let q = users()
        .where_op("a", "=", SqlValue::Bool(false))
        .where_op("b", "=", SqlValue::Null)
        .where_op("c", "<", SqlValue::Int(i64::MIN));
    assert_eq!(
        q.to_sql(),
        "SELECT * FROM users WHERE a = false AND b = NULL AND c < -9223372036854775808"
    );
}

#[test]
fn order_by_upper_cases_direction() {
    let q = users().order_by("name", "desc").order_by_raw("id", "asc".to_string());
    assert_eq!(q.to_sql(), "SELECT * FROM users ORDER BY name DESC, id asc");
}

#[test]
fn latest_and_oldest_default_to_created_at() {
    assert_eq!(users().latest(None).to_sql(), "SELECT * FROM users ORDER BY created_at DESC");
    assert_eq!(users().oldest(Some("id")).to_sql(), "SELECT * FROM users ORDER BY id ASC");
    assert_eq!(User::latest(None).to_sql(), "SELECT * FROM users ORDER BY created_at DESC");
}

#[test]
fn joins_of_each_kind() {
    let q = users()
        .left_join("a", "a.x", "=", "users.x")
        .right_join("b", "b.y", "<>", "users.y");
    assert_eq!(
        q.to_sql(),
        "SELECT * FROM users LEFT JOIN a ON a.x = users.x RIGHT JOIN b ON b.y <> users.y"
    );
}

#[test]
fn select_raw_replaces_projection() {
    let q = users().select(vec!["a", "b"]).select_raw("COUNT(*)").with(vec!["posts"]);
    assert_eq!(q.to_sql(), "SELECT COUNT(*) FROM users");
}

#[test]
fn count_sql_drops_projection_limit_and_offset() {
    let q = users().select(vec!["name"]).where_clause("a", "b").limit(5).offset(10);
    assert_eq!(q.to_count_sql(), "SELECT COUNT(*) FROM users WHERE a = 'b'");
}

#[test]
fn find_by_id_constrains_primary_key() {
    assert_eq!(User::find_by_id(7).to_sql(), "SELECT * FROM users WHERE id = '7'");
    assert_eq!(Role::find_or_fail(-1).to_sql(), "SELECT * FROM roles WHERE code = '-1'");
    assert_eq!(User::where_("name", "bo").to_sql(), "SELECT * FROM users WHERE name = 'bo'");
    assert_eq!(User::all().to_sql(), User::query().to_sql());
}

#[test]
fn model_defaults() {
    assert_eq!(User::connection(), "default");
    assert!(User::timestamps());
    assert_eq!(User::created_at_column(), "created_at");
    assert_eq!(User::updated_at_column(), "updated_at");
    assert_eq!(User::table(), "users");
    assert_eq!(Role::get_key_name(), "code");
}

#[test]
fn pivot_statements() {
    let rel = User { id: Some(3) }.belongs_to_many::<Role>(None, None, None, None, None);
    let key = rel.parent_key_value().unwrap();
    assert_eq!(rel.attach_sql(&key, 7), "INSERT INTO roles_users (user_id, role_id) VALUES (3, 7)");
    assert_eq!(rel.detach_sql(&key, 7), "DELETE FROM roles_users WHERE user_id = 3 AND role_id = 7");
    assert_eq!(rel.attached_ids_sql(&key), "SELECT role_id FROM roles_users WHERE user_id = 3");
    let text_key = SqlValue::Text("ab".to_string());
    assert_eq!(rel.attached_ids_sql(&text_key), "SELECT role_id FROM roles_users WHERE user_id = 'ab'");
}

#[test]
fn related_query_for_a_given_key() {
    let rel = HasOne::<User, Post>::from_parts(
        User { id: None },
        TableInfo::new("people", "pid"),
        TableInfo::new("notes", "nid"),
        None,
        None,
    );
    assert_eq!(
        rel.query_for_key(Some(SqlValue::Text("k1".to_string()))).to_sql(),
        "SELECT * FROM notes WHERE people_id = 'k1'"
    );
    assert_eq!(rel.query_for_key(Some(SqlValue::Bool(true))).to_sql(), "SELECT * FROM notes");
    assert_eq!(rel.query_for_key(None).to_sql(), "SELECT * FROM notes");
    let stamped = rel.stamp_for_key(Some(SqlValue::Int(2)));
    assert_eq!(stamped.len(), 1);
    assert_eq!(stamped[0].0, "people_id");
}

#[test]
fn morph_relation_for_a_given_key() {
    let rel = HasMorphMany::<User, Post>::from_parts(
        User { id: None },
        TableInfo::new("videos", "id"),
        TableInfo::new("comments", "id"),
        "commentable",
        Some("kind".to_string()),
        None,
        None,
    );
    assert_eq!(
        rel.query_for_key(Some(SqlValue::Int(12))).to_sql(),
        "SELECT * FROM comments WHERE kind = 'videos' AND commentable_id = '12'"
    );
    let stamped = rel.stamp_for_key(Some(SqlValue::Int(12)));
    assert_eq!(stamped.len(), 2);
    assert_eq!(stamped[1].0, "commentable_id");
    assert!(matches!(stamped[1].1, SqlValue::Int(12)));
}

#[test]
fn many_to_many_from_parts() {
    let rel = BelongsToMany::<User, Role>::from_parts(
        User { id: None },
        TableInfo::new("accounts", "id"),
        TableInfo::new("groups", "gid"),
        None,
        None,
        None,
        None,
        None,
    );
    assert_eq!(
        rel.query_for_key(Some(SqlValue::Int(1))).to_sql(),
        "SELECT * FROM groups INNER JOIN accounts_groups ON accounts_groups.group_id = groups.gid \
         WHERE accounts_groups.account_id = '1'"
    );
}

#[test]
fn naming_convention() {
    assert_eq!(trim_trailing_s_of("address"), "addre");
    assert_eq!(trim_trailing_s_of("sss"), "");
    assert_eq!(trim_trailing_s_of(""), "");
    assert_eq!(foreign_key_of("users"), "user_id");
    assert_eq!(foreign_key_of("news"), "new_id");
    assert_eq!(pivot_table_of("users", "roles"), "roles_users");
    assert_eq!(pivot_table_of("a", "ab"), "a_ab");
    assert_eq!(pivot_table_of("ab", "a"), "a_ab");
    assert_eq!(pivot_table_of("Zed", "abc"), "Zed_abc");
}

#[test]
fn decimal_text() {
    assert_eq!(int_to_text(0), "0");
    assert_eq!(int_to_text(1234567890), "1234567890");
    assert_eq!(int_to_text(-5), "-5");
    assert_eq!(int_to_text(i64::MAX), "9223372036854775807");
}

#[test]
fn query_on_named_table() {
    let q: Query<User> = Query::on_table("archive").where_not_null("x");
    assert_eq!(q.to_sql(), "SELECT * FROM archive WHERE x IS NOT NULL");
}

#[test]
fn sync_with_nothing_attached_and_nothing_asked() {
    let all_new = sync_changes(&Vec::new(), &vec![4, 5]);
    assert_eq!(all_new.attach, vec![4, 5]);
    assert!(all_new.detach.is_empty());
    let clear = sync_changes(&vec![1, 2], &Vec::new());
    assert!(clear.attach.is_empty());
    assert_eq!(clear.detach, vec![1, 2]);
}
