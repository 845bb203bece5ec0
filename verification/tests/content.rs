use ryob::database::error::DatabaseError;
use ryob::database::order::newest_first_order;
use ryob::database::store::Database;
use ryob::models::post::{Post, PostError};
use ryob::models::topic::{Topic, TopicError};
use ryob::models::user::{NewUser, User};
use ryob::utils::errors::RyobError;
use ryob::utils::id::Id;

fn words(s: &str) -> String {
    s.to_string()
}

fn forum_with(names: &[&str]) -> (Database, Vec<User>) {
    let mut db = Database::new();
    let mut users = Vec::new();
    for name in names {
        let new_user = NewUser { user_name: words(name), password_hash: words("hash") };
        users.push(User::store(&mut db, new_user).unwrap());
    }
    (db, users)
}

fn titles(rows: &[(Topic, User)]) -> Vec<String> {
    rows.iter().map(|(t, _)| t.title.clone()).collect()
}

fn contents(rows: &[(Post, User)]) -> Vec<String> {
    rows.iter().map(|(p, _)| p.content.clone()).collect()
}

#[test]
fn posts_of_a_topic_come_later_first() {
    let (mut db, users) = forum_with(&["Ada"]);
    let ada = users[0].id;
    let hello = Topic::create_at(&mut db, ada, &words("Hello"), 1_000).unwrap();
    assert_eq!(hello.title, "Hello");
    assert_eq!(hello.created_by, ada);
    let first = Post::create_at(&mut db, ada, hello.id, &words("first"), 2_000).unwrap();
    let second = Post::create_at(&mut db, ada, hello.id, &words("second"), 3_000).unwrap();
    let rows = Post::in_topic_by_date(&db, hello.id, 0, 10).unwrap();
    assert_eq!(rows.len(), 2);
    assert_eq!(rows[0].0.id, second.id);
    assert_eq!(rows[0].0.content, "second");
    assert_eq!(rows[0].0.created_at, 3_000);
    assert_eq!(rows[1].0.id, first.id);
    assert_eq!(rows[1].0.content, "first");
    assert_eq!(rows[0].1.user_name, "Ada");
    assert_eq!(rows[1].1.id, ada);
}

#[test]
fn posts_created_now_are_listed() {
    let (mut db, users) = forum_with(&["Ada"]);
    let ada = users[0].id;
    let hello = Topic::create(&mut db, ada, &words("Hello")).unwrap();
    assert_eq!(hello.id.value(), 1);
    assert!(hello.created_at > 1_600_000_000_000_000);
    let post = Post::create(&mut db, ada, hello.id, &words("first")).unwrap();
    assert!(post.created_at >= hello.created_at);
    assert_eq!(post.posted_in, hello.id);
    let topics = Topic::by_date(&db, 0, 10).unwrap();
    assert_eq!(titles(&topics), vec!["Hello"]);
    let posts = Post::in_topic_by_date(&db, hello.id, 0, 10).unwrap();
    assert_eq!(contents(&posts), vec!["first"]);
}

#[test]
fn topics_are_listed_newest_first_whatever_the_order_of_insertion() {
    let (mut db, users) = forum_with(&["Ada", "Grace"]);
    let times = [50, 10, 40, 20, 30];
    for t in times {
        let who = users[(t / 10) as usize % 2].id;
        Topic::create_at(&mut db, who, &format!("t{}", t), t).unwrap();
    }
    let rows = Topic::by_date(&db, 0, 100).unwrap();
    assert_eq!(titles(&rows), vec!["t50", "t40", "t30", "t20", "t10"]);
    for pair in rows.windows(2) {
        assert!(pair[0].0.created_at > pair[1].0.created_at);
    }
    for (topic, user) in &rows {
        assert_eq!(topic.created_by, user.id);
    }
    assert_eq!(rows[0].1.user_name, "Grace");
    assert_eq!(rows[1].1.user_name, "Ada");
}

#[test]
fn limit_and_offset_cut_the_listing_as_sql_does() {
    let (mut db, users) = forum_with(&["Ada"]);
    for t in 1..=5 {
        Topic::create_at(&mut db, users[0].id, &format!("t{}", t), t).unwrap();
    }
    let page = |offset, limit| titles(&Topic::by_date(&db, offset, limit).unwrap());
    assert_eq!(page(0, 2), vec!["t5", "t4"]);
    assert_eq!(page(2, 2), vec!["t3", "t2"]);
    assert_eq!(page(4, 2), vec!["t1"]);
    assert_eq!(page(1, 3), vec!["t4", "t3", "t2"]);
    assert_eq!(page(0, 5), vec!["t5", "t4", "t3", "t2", "t1"]);
    assert_eq!(page(0, i64::MAX), vec!["t5", "t4", "t3", "t2", "t1"]);
    assert_eq!(page(3, i64::MAX), vec!["t2", "t1"]);
    assert!(page(5, 2).is_empty());
    assert!(page(6, 2).is_empty());
    assert!(page(i64::MAX, i64::MAX).is_empty());
    assert!(page(0, 0).is_empty());
    assert!(page(2, 0).is_empty());
}

#[test]
fn negative_offset_or_limit_is_a_database_failure() {
    let (mut db, users) = forum_with(&["Ada"]);
    let topic = Topic::create_at(&mut db, users[0].id, &words("Hello"), 1).unwrap();
    match Topic::by_date(&db, -1, 5) {
        Err(TopicError::UnknownDatabaseError(DatabaseError::Unknown(m))) => {
            assert_eq!(m, "OFFSET must not be negative")
        }
        other => panic!("unexpected: {:?}", other),
    }
    match Topic::by_date(&db, 0, -1) {
        Err(TopicError::UnknownDatabaseError(DatabaseError::Unknown(m))) => {
            assert_eq!(m, "LIMIT must not be negative")
        }
        other => panic!("unexpected: {:?}", other),
    }
    match Topic::by_date(&db, i64::MIN, i64::MIN) {
        Err(TopicError::UnknownDatabaseError(DatabaseError::Unknown(m))) => {
            assert_eq!(m, "OFFSET must not be negative")
        }
        other => panic!("unexpected: {:?}", other),
    }
    match Post::in_topic_by_date(&db, topic.id, -1, 5) {
        Err(PostError::UnknownDatabaseError(DatabaseError::Unknown(m))) => {
            assert_eq!(m, "OFFSET must not be negative")
        }
        other => panic!("unexpected: {:?}", other),
    }
    match Post::in_topic_by_date(&db, topic.id, 0, -5) {
        Err(PostError::UnknownDatabaseError(DatabaseError::Unknown(m))) => {
            assert_eq!(m, "LIMIT must not be negative")
        }
        other => panic!("unexpected: {:?}", other),
    }
}

#[test]
fn rows_of_one_time_come_later_stored_first() {
    let (mut db, users) = forum_with(&["Ada"]);
    for name in ["a", "b", "c"] {
        Topic::create_at(&mut db, users[0].id, &words(name), 7).unwrap();
    }
    Topic::create_at(&mut db, users[0].id, &words("old"), 1).unwrap();
    Topic::create_at(&mut db, users[0].id, &words("new"), 9).unwrap();
    let rows = Topic::by_date(&db, 0, 10).unwrap();
    assert_eq!(titles(&rows), vec!["new", "c", "b", "a", "old"]);
}

#[test]
fn listing_of_posts_keeps_to_its_topic() {
    let (mut db, users) = forum_with(&["Ada", "Grace"]);
    let (ada, grace) = (users[0].id, users[1].id);
    let one = Topic::create_at(&mut db, ada, &words("one"), 1).unwrap();
    let two = Topic::create_at(&mut db, grace, &words("two"), 2).unwrap();
    Post::create_at(&mut db, ada, one.id, &words("1a"), 10).unwrap();
    Post::create_at(&mut db, grace, two.id, &words("2a"), 11).unwrap();
    Post::create_at(&mut db, grace, one.id, &words("1b"), 12).unwrap();
    Post::create_at(&mut db, ada, two.id, &words("2b"), 5).unwrap();
    Post::create_at(&mut db, ada, one.id, &words("1c"), 3).unwrap();
    let rows = Post::in_topic_by_date(&db, one.id, 0, 10).unwrap();
    assert_eq!(contents(&rows), vec!["1b", "1a", "1c"]);
    assert_eq!(rows[0].1.user_name, "Grace");
    assert_eq!(rows[1].1.user_name, "Ada");
    let rows = Post::in_topic_by_date(&db, two.id, 0, 10).unwrap();
    assert_eq!(contents(&rows), vec!["2a", "2b"]);
    let rows = Post::in_topic_by_date(&db, one.id, 1, 1).unwrap();
    assert_eq!(contents(&rows), vec!["1a"]);
    let rows = Post::in_topic_by_date(&db, one.id, 2, 5).unwrap();
    assert_eq!(contents(&rows), vec!["1c"]);
    let rows = Post::in_topic_by_date(&db, one.id, 3, 5).unwrap();
    assert!(rows.is_empty());
    let rows = Post::in_topic_by_date(&db, Id::new(99), 0, 5).unwrap();
    assert!(rows.is_empty());
}

#[test]
fn empty_tables_list_nothing() {
    let db = Database::new();
    assert!(Topic::by_date(&db, 0, 10).unwrap().is_empty());
    assert!(Post::in_topic_by_date(&db, Id::new(1), 0, 10).unwrap().is_empty());
    assert!(db.users().is_empty());
    assert!(db.topics().is_empty());
    assert!(db.posts().is_empty());
}

#[test]
fn topic_of_an_unknown_creator_is_refused() {
    let (mut db, _) = forum_with(&["Ada"]);
    match Topic::create_at(&mut db, Id::new(2), &words("Hello"), 1) {
        Err(TopicError::UnknownDatabaseError(DatabaseError::ForeignKeyViolation(name))) => {
            assert_eq!(name, "topics_created_by_fkey")
        }
        other => panic!("unexpected: {:?}", other),
    }
    assert!(db.topics().is_empty());
    assert!(matches!(
        Topic::create(&mut db, Id::new(2), &words("Hello")),
        Err(TopicError::UnknownDatabaseError(DatabaseError::ForeignKeyViolation(_)))
    ));
    assert!(db.topics().is_empty());
}

#[test]
fn post_in_an_unknown_topic_or_by_an_unknown_creator_is_refused() {
    let (mut db, users) = forum_with(&["Ada"]);
    let topic = Topic::create_at(&mut db, users[0].id, &words("Hello"), 1).unwrap();
    match Post::create_at(&mut db, users[0].id, Id::new(9), &words("x"), 2) {
        Err(PostError::UnknownDatabaseError(DatabaseError::ForeignKeyViolation(name))) => {
            assert_eq!(name, "posts_posted_in_fkey")
        }
        other => panic!("unexpected: {:?}", other),
    }
    match Post::create_at(&mut db, Id::new(9), topic.id, &words("x"), 2) {
        Err(PostError::UnknownDatabaseError(DatabaseError::ForeignKeyViolation(name))) => {
            assert_eq!(name, "posts_created_by_fkey")
        }
        other => panic!("unexpected: {:?}", other),
    }
    match Post::create_at(&mut db, Id::new(9), Id::new(9), &words("x"), 2) {
        Err(PostError::UnknownDatabaseError(DatabaseError::ForeignKeyViolation(name))) => {
            assert_eq!(name, "posts_posted_in_fkey")
        }
        other => panic!("unexpected: {:?}", other),
    }
    assert!(db.posts().is_empty());
    assert!(matches!(
        Post::create(&mut db, users[0].id, Id::new(9), &words("x")),
        Err(PostError::UnknownDatabaseError(DatabaseError::ForeignKeyViolation(_)))
    ));
}

#[test]
fn topic_and_post_identifiers_ascend_from_one() {
    let (mut db, users) = forum_with(&["Ada"]);
    let a = Topic::create_at(&mut db, users[0].id, &words("a"), 5).unwrap();
    let b = Topic::create_at(&mut db, users[0].id, &words("b"), 4).unwrap();
    assert_eq!((a.id.value(), b.id.value()), (1, 2));
    let p = Post::create_at(&mut db, users[0].id, b.id, &words("p"), -3).unwrap();
    let q = Post::create_at(&mut db, users[0].id, a.id, &words("q"), i64::MIN).unwrap();
    assert_eq!((p.id.value(), q.id.value()), (1, 2));
    assert_eq!(p.created_at, -3);
    assert_eq!(db.topics().len(), 2);
    assert_eq!(db.posts().len(), 2);
    assert_eq!(db.posts()[1].content, "q");
}

#[test]
fn topic_identifiers_run_out() {
    let user = User { id: Id::new(1), user_name: words("Ada"), password_hash: words("h") };
    let topic =
        Topic { id: Id::new(i64::MAX), title: words("t"), created_by: Id::new(1), created_at: 0 };
    let post = Post {
        id: Id::new(i64::MAX),
        posted_in: Id::new(i64::MAX),
        created_by: Id::new(1),
        created_at: 0,
        content: words("c"),
    };
    let mut db = Database::from_tables(vec![user], vec![topic], vec![post]).unwrap();
    match Topic::create_at(&mut db, Id::new(1), &words("more"), 1) {
        Err(TopicError::UnknownDatabaseError(DatabaseError::Unknown(m))) => {
            assert_eq!(m, "nextval: reached maximum value of sequence")
        }
        other => panic!("unexpected: {:?}", other),
    }
    match Post::create_at(&mut db, Id::new(1), Id::new(i64::MAX), &words("more"), 1) {
        Err(PostError::UnknownDatabaseError(DatabaseError::Unknown(m))) => {
            assert_eq!(m, "nextval: reached maximum value of sequence")
        }
        other => panic!("unexpected: {:?}", other),
    }
    assert_eq!(db.topics().len(), 1);
    assert_eq!(db.posts().len(), 1);
}

#[test]
fn tables_that_break_a_rule_make_no_database() {
    let user = |id: i64, name: &str| User {
        id: Id::new(id),
        user_name: words(name),
        password_hash: words("h"),
    };
    let topic = |id: i64, by: i64| Topic {
        id: Id::new(id),
        title: words("t"),
        created_by: Id::new(by),
        created_at: 0,
    };
    let post = |id: i64, topic: i64, by: i64| Post {
        id: Id::new(id),
        posted_in: Id::new(topic),
        created_by: Id::new(by),
        created_at: 0,
        content: words("c"),
    };
    assert!(Database::from_tables(vec![], vec![], vec![]).is_some());
    assert!(Database::from_tables(
        vec![user(1, "Ada"), user(5, "Grace")],
        vec![topic(2, 5), topic(3, 1)],
        vec![post(1, 3, 1), post(4, 2, 5)]
    )
    .is_some());
    // Identifiers out of order, or repeated.
    assert!(Database::from_tables(vec![user(2, "Ada"), user(1, "Grace")], vec![], vec![])
        .is_none());
    assert!(Database::from_tables(vec![user(1, "Ada"), user(1, "Grace")], vec![], vec![])
        .is_none());
    // A name twice.
    assert!(Database::from_tables(vec![user(1, "Ada"), user(2, "Ada")], vec![], vec![])
        .is_none());
    assert!(Database::from_tables(
        vec![user(1, "Ada"), user(2, "Grace"), user(3, "Ada")],
        vec![],
        vec![]
    )
    .is_none());
    // A topic without its creator, or out of order.
    assert!(Database::from_tables(vec![user(1, "Ada")], vec![topic(1, 2)], vec![]).is_none());
    assert!(Database::from_tables(vec![user(1, "Ada")], vec![topic(2, 1), topic(2, 1)], vec![])
        .is_none());
    // A post without its topic or its creator, or out of order.
    assert!(Database::from_tables(vec![user(1, "Ada")], vec![topic(1, 1)], vec![post(1, 2, 1)])
        .is_none());
    assert!(Database::from_tables(vec![user(1, "Ada")], vec![topic(1, 1)], vec![post(1, 1, 2)])
        .is_none());
    assert!(Database::from_tables(
        vec![user(1, "Ada")],
        vec![topic(1, 1)],
        vec![post(3, 1, 1), post(2, 1, 1)]
    )
    .is_none());
}

#[test]
fn loaded_tables_answer_queries() {
    let users = vec![
        User { id: Id::new(3), user_name: words("Ada"), password_hash: words("h") },
        User { id: Id::new(8), user_name: words("Grace"), password_hash: words("h") },
    ];
    let topics = vec![
        Topic { id: Id::new(4), title: words("old"), created_by: Id::new(8), created_at: 10 },
        Topic { id: Id::new(6), title: words("new"), created_by: Id::new(3), created_at: 20 },
    ];
    let mut db = Database::from_tables(users, topics, vec![]).unwrap();
    let rows = Topic::by_date(&db, 0, 10).unwrap();
    assert_eq!(titles(&rows), vec!["new", "old"]);
    assert_eq!(rows[0].1.user_name, "Ada");
    assert_eq!(rows[1].1.user_name, "Grace");
    let next = Topic::create_at(&mut db, Id::new(3), &words("next"), 15).unwrap();
    assert_eq!(next.id.value(), 7);
    let edsger =
        User::store(&mut db, NewUser { user_name: words("Edsger"), password_hash: words("h") })
            .unwrap();
    assert_eq!(edsger.id.value(), 9);
    assert_eq!(titles(&Topic::by_date(&db, 1, 1).unwrap()), vec!["next"]);
}

#[test]
fn newest_first_order_of_positions() {
    assert_eq!(newest_first_order(&vec![]), Vec::<usize>::new());
    assert_eq!(newest_first_order(&vec![5]), vec![0]);
    assert_eq!(newest_first_order(&vec![1, 2, 3]), vec![2, 1, 0]);
    assert_eq!(newest_first_order(&vec![3, 2, 1]), vec![0, 1, 2]);
    assert_eq!(newest_first_order(&vec![2, 9, 2, 9, -1]), vec![3, 1, 2, 0, 4]);
    assert_eq!(newest_first_order(&vec![i64::MIN, i64::MAX, 0]), vec![1, 2, 0]);
}

#[test]
fn topic_and_post_errors() {
    let e = TopicError::UnknownDatabaseError(DatabaseError::ForeignKeyViolation(words("k")));
    assert_eq!(e.to_string(), "insert or update violates foreign key constraint k");
    assert_eq!(TopicError::Unknown(words("u")).to_string(), "u");
    let e = PostError::UnknownDatabaseError(DatabaseError::UniqueViolation(words("k")));
    assert_eq!(e.to_string(), "duplicate key value violates unique constraint k");
    assert_eq!(PostError::Unknown(words("u")).to_string(), "u");
    assert_eq!(DatabaseError::NotFound.to_string(), "Record not found");
    assert_eq!(DatabaseError::Unknown(words("m")).to_string(), "m");

    let r = RyobError::from(TopicError::Unknown(words("u")));
    assert_eq!((r.0, r.1.as_str()), (500, "u"));
    let r = RyobError::from(TopicError::UnknownDatabaseError(DatabaseError::NotFound));
    assert_eq!((r.0, r.1.as_str()), (500, "Record not found"));
    let r = RyobError::from(PostError::Unknown(words("u")));
    assert_eq!((r.0, r.1.as_str()), (500, "u"));
    let r = RyobError::from(PostError::UnknownDatabaseError(DatabaseError::Unknown(words("m"))));
    assert_eq!((r.0, r.1.as_str()), (500, "m"));
    assert!(matches!(
        TopicError::from(DatabaseError::NotFound),
        TopicError::UnknownDatabaseError(DatabaseError::NotFound)
    ));
    assert!(matches!(
        PostError::from(DatabaseError::NotFound),
        PostError::UnknownDatabaseError(DatabaseError::NotFound)
    ));
    let copy = DatabaseError::UniqueViolation(words("k")).clone();
    assert!(matches!(copy, DatabaseError::UniqueViolation(k) if k == "k"));
}
