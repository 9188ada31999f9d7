use helix_social::seed::{SeedInput, SeedScript, Shape, SEED_STEPS};

/// Runs the script against a stub that answers the query at step `i` with the
/// id `id{i}`, or fails at step `fail_at`. Returns what was sent.
fn drive(fail_at: Option<usize>) -> (Vec<(&'static str, SeedInput, Shape)>, SeedScript) {
    let mut script = SeedScript::new();
    let mut sent = Vec::new();
    while let Some(call) = script.next_call() {
        let step = sent.len();
        sent.push((call.query, call.input, call.shape));
        if Some(step) == fail_at {
            script.record(Err(format!("failure at {}", step)));
        } else {
            script.record(Ok(format!("id{}", step)));
        }
    }
    (sent, script)
}

#[test]
fn seed_sends_queries_in_order() {
    let (sent, script) = drive(None);
    let names: Vec<&str> = sent.iter().map(|c| c.0).collect();
    assert_eq!(
        names,
        vec![
            "createUser", "createUser", "createUser",
            "createFollow", "createFollow", "createFollow",
            "createPost", "createPost", "createPost",
            "createPostEmbedding", "createPostEmbedding", "createPostEmbedding",
            "getUsers", "getPosts", "getPostsByUser",
            "getFollowing", "getFollowers", "searchPostEmbeddings",
        ]
    );
    assert_eq!(sent.len(), SEED_STEPS);
    assert!(script.finished());
    assert_eq!(script.failure(), None);
}

#[test]
fn seed_inputs_use_returned_ids() {
    let (sent, _) = drive(None);
    assert!(matches!(&sent[0].1, SeedInput::User { name: "Alice", age: 25, email: "alice@example.com" }));
    assert!(matches!(&sent[1].1, SeedInput::User { name: "Bob", age: 30, email: "bob@example.com" }));
    assert!(matches!(&sent[2].1, SeedInput::User { name: "Charlie", age: 28, email: "charlie@example.com" }));
    let follows: Vec<(String, String)> = sent[3..6]
        .iter()
        .map(|c| match &c.1 {
            SeedInput::Follow { follower_id, followed_id } => (follower_id.clone(), followed_id.clone()),
            _ => panic!("expected a follow"),
        })
        .collect();
    assert_eq!(
        follows,
        vec![
            ("id0".to_string(), "id1".to_string()),
            ("id1".to_string(), "id2".to_string()),
            ("id2".to_string(), "id0".to_string()),
        ]
    );
    match &sent[7].1 {
        SeedInput::Post { user_id, content } => {
            assert_eq!(user_id, "id1");
            assert_eq!(*content, "Loving the graph database capabilities");
        }
        _ => panic!("expected a post"),
    }
    match &sent[11].1 {
        SeedInput::Embedding { post_id, tenths, content } => {
            assert_eq!(post_id, "id8");
            assert_eq!(tenths, &vec![3, 4, 5, 6, 7]);
            assert_eq!(*content, "Building cool social networks with Helix");
        }
        _ => panic!("expected an embedding"),
    }
    assert!(matches!(sent[12].1, SeedInput::Nothing));
    assert!(matches!(sent[13].1, SeedInput::Nothing));
    assert!(matches!(&sent[14].1, SeedInput::ByUser { user_id } if user_id == "id0"));
    assert!(matches!(&sent[15].1, SeedInput::ByUser { user_id } if user_id == "id0"));
    assert!(matches!(&sent[16].1, SeedInput::ByUser { user_id } if user_id == "id1"));
    match &sent[17].1 {
        SeedInput::Search { tenths, k } => {
            assert_eq!(tenths, &vec![1, 2, 3, 4, 5]);
            assert_eq!(*k, 1);
        }
        _ => panic!("expected a search"),
    }
    assert_eq!(sent[0].2, Shape::CreatedUser);
    assert_eq!(sent[6].2, Shape::CreatedPost);
    assert_eq!(sent[12].2, Shape::Users);
    assert_eq!(sent[15].2, Shape::Following);
    assert_eq!(sent[16].2, Shape::Followers);
    assert_eq!(sent[17].2, Shape::Posts);
}

#[test]
fn seed_halts_at_first_failure() {
    for k in 0..SEED_STEPS {
        let (sent, script) = drive(Some(k));
        assert_eq!(sent.len(), k + 1);
        assert!(script.finished());
        assert_eq!(script.failure(), Some(format!("failure at {}", k)));
        assert!(script.next_call().is_none());
    }
}

#[test]
fn seed_ignores_answers_after_stopping() {
    let (_, mut script) = drive(Some(4));
    script.record(Ok("late".to_string()));
    assert_eq!(script.failure(), Some("failure at 4".to_string()));
    assert!(script.next_call().is_none());
}
