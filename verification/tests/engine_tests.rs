use query_cache::Cached;
use query_cache::Error;
use query_cache::FetchPlan;
use query_cache::FetchRun;
use query_cache::FetchStep;
use query_cache::Id;
use query_cache::InfiniteData;
use query_cache::Key;
use query_cache::QueryClient;
use query_cache::QueryOptions;
use query_cache::QueryKey;
use query_cache::QueryState;
use query_cache::QueryValue;
use query_cache::Retry;
use query_cache::VecCache;

const TAG_STRING: u64 = 1;

fn key_of(name: &str, ty: u64) -> QueryKey {
    QueryKey::of(Key::new(name.to_string()), ty)
}

fn text(s: &str) -> QueryValue {
    QueryValue::Text(s.to_string())
}

#[test]
fn dedup_single_execution_test() {
    // Three concurrent callers, one physical fetch, one shared result.
    let mut client = QueryClient::<VecCache>::builder().cache_time(1000).build();
    let key = key_of("user", TAG_STRING);

    let first = client.fetch_query(&key, 0);
    assert!(matches!(first, FetchPlan::Fetch { store: true, .. }));
    assert_eq!(client.get_query(&key).unwrap().fetch_count, 1);

    // Two more callers arrive before the fetch resolves: both join.
    assert!(matches!(client.fetch_query(&key, 0), FetchPlan::Join));
    assert!(matches!(client.fetch_query(&key, 0), FetchPlan::Join));
    assert_eq!(client.get_query(&key).unwrap().fetch_count, 1);
    assert!(client.is_fetching(&key));

    // The single outcome is what every caller observes.
    let settled = client.complete_query(&key, Ok(text("ana")), 5).unwrap();
    assert_eq!(settled, text("ana"));
    assert_eq!(client.get_query_data(&key, TAG_STRING, 5).ok(), Some(text("ana")));
    assert!(!client.is_fetching(&key));
}

#[test]
fn retry_exhaustion_test() {
    // A fetch that always fails, against two backoff delays: three
    // attempts in all, and the last error is the final outcome.
    let schedule = Retry::new(vec![10, 20]);
    let mut run = FetchRun::new(Some(&schedule));
    let mut calls: u64 = 0;

    let outcome = loop {
        calls += 1;
        let failure: Result<QueryValue, Error> =
            Err(Error::new(format!("boom {}", calls)));
        match run.on_result(failure) {
            FetchStep::Done(result) => break result,
            FetchStep::RetryAfter(delay) => {
                assert!(delay == 10 || delay == 20);
            }
        }
    };

    assert_eq!(calls, 3);
    assert_eq!(run.attempts, 3);
    assert_eq!(outcome, Err(Error::new("boom 3".to_string())));
}

#[test]
fn retry_then_success_test() {
    // Three delays of 10ms; the fetch fails on attempts 1 to 3 and
    // succeeds on attempt 4: the run succeeds, four invocations, and at
    // least 30ms are spent sleeping.
    let schedule = Retry::new(vec![10, 10, 10]);
    let mut run = FetchRun::new(Some(&schedule));
    let mut calls: u64 = 0;
    let mut slept: u64 = 0;

    let outcome = loop {
        calls += 1;
        let result: Result<QueryValue, Error> = if calls <= 3 {
            Err(Error::new("not yet".to_string()))
        } else {
            Ok(text("finally"))
        };
        match run.on_result(result) {
            FetchStep::Done(result) => break result,
            FetchStep::RetryAfter(delay) => slept += delay,
        }
    };

    assert_eq!(outcome, Ok(text("finally")));
    assert_eq!(calls, 4);
    assert!(slept >= 30);
}

#[test]
fn no_retry_policy_first_error_test() {
    // Without a schedule the first error ends the run at once.
    let mut run = FetchRun::new(None);
    let failure: Result<QueryValue, Error> = Err(Error::new("down".to_string()));
    match run.on_result(failure) {
        FetchStep::Done(result) => {
            assert_eq!(result, Err(Error::new("down".to_string())));
        }
        FetchStep::RetryAfter(_) => panic!("no delay was configured"),
    }
    assert!(run.is_done());
    assert_eq!(run.attempts, 1);
}

#[test]
fn refetch_cadence_test() {
    // With a refetch interval of 100ms and a fetch that always
    // succeeds, three ticks over a 300ms window refresh the value three
    // times: one physical fetch per tick.
    let mut client = QueryClient::<VecCache>::builder()
        .cache_time(1000)
        .refetch_time(100)
        .build();
    let key = key_of("feed", TAG_STRING);

    let plan = client.fetch_query(&key, 0);
    assert!(matches!(plan, FetchPlan::Fetch { store: true, .. }));
    client.complete_query(&key, Ok(text("v0")), 0).unwrap();
    assert_eq!(client.get_query(&key).unwrap().fetch_count, 1);

    let mut refreshed: u64 = 0;
    for tick in [100u64, 200, 300] {
        // A tick is not due a moment early.
        assert!(client.poll_refetch(&key, tick - 1).is_none());
        let plan = client.poll_refetch(&key, tick).expect("tick due");
        assert!(matches!(plan, FetchPlan::Fetch { store: true, .. }));
        refreshed += 1;
        client.complete_query(&key, Ok(text("fresh")), tick).unwrap();
    }

    assert_eq!(refreshed, 3);
    assert_eq!(client.get_query(&key).unwrap().fetch_count, 4);
    assert_eq!(client.get_query(&key).unwrap().updated_at, Some(300));
}

#[test]
fn set_get_round_trip_test() {
    // A write at one tag reads back identical at that tag, and is
    // refused at any other tag.
    let mut client = QueryClient::<VecCache>::builder().cache_time(500).build();
    let key = key_of("profile", TAG_STRING);

    let plan = client.fetch_query(&key, 0);
    assert!(matches!(plan, FetchPlan::Fetch { store: true, .. }));
    client.complete_query(&key, Ok(text("old")), 0).unwrap();

    client.set_query_data(&key, TAG_STRING, text("new"), 10).unwrap();
    assert_eq!(client.get_query_data(&key, TAG_STRING, 10).ok(), Some(text("new")));
    assert!(matches!(
        client.get_query_data(&key, TAG_STRING + 1, 10),
        Err(query_cache::QueryError::TypeMismatch(_))
    ));
}

#[test]
fn failure_keeps_last_value_test() {
    // A failed refetch records the error but leaves the older value
    // readable.
    let mut client = QueryClient::<VecCache>::builder().cache_time(1000).build();
    let key = key_of("news", TAG_STRING);

    let plan = client.fetch_query(&key, 0);
    assert!(matches!(plan, FetchPlan::Fetch { store: true, .. }));
    client.complete_query(&key, Ok(text("morning")), 0).unwrap();

    client.refetch_query(&key, 50).unwrap();
    let err = client
        .complete_query(&key, Err(Error::new("offline".to_string())), 50)
        .unwrap_err();
    assert_eq!(err, Error::new("offline".to_string()));

    let entry = client.get_query(&key).unwrap();
    assert!(matches!(entry.state, QueryState::Failed(_)));
    assert_eq!(client.get_query_data(&key, TAG_STRING, 60).ok(), Some(text("morning")));

    // A later fetch starts cleanly from the failure and may succeed.
    client.refetch_query(&key, 70).unwrap();
    client.complete_query(&key, Ok(text("evening")), 70).unwrap();
    assert_eq!(client.get_query_data(&key, TAG_STRING, 80).ok(), Some(text("evening")));
}

#[test]
fn state_change_events_test() {
    // Every transition logs exactly one event, in order.
    let mut client = QueryClient::<VecCache>::builder().cache_time(1000).build();
    let key = key_of("inbox", TAG_STRING);

    let plan = client.fetch_query(&key, 0);
    assert!(matches!(plan, FetchPlan::Fetch { store: true, .. }));
    client.complete_query(&key, Ok(text("empty")), 0).unwrap();

    let events = client.take_events();
    assert_eq!(events.len(), 3);
    assert_eq!(events[0].0, key);
    assert!(matches!(events[0].1.state, QueryState::Idle));
    assert!(matches!(events[1].1.state, QueryState::Loading));
    assert!(events[1].1.is_fetching);
    assert!(matches!(events[2].1.state, QueryState::Ready));
    assert_eq!(events[2].1.value, Some(text("empty")));

    assert!(client.take_events().is_empty());
}

#[test]
fn query_state_predicates_test() {
    assert!(QueryState::Idle.is_idle());
    assert!(QueryState::Loading.is_loading());
    assert!(QueryState::Ready.is_ready());
    assert!(QueryState::Failed(Error::new("x".to_string())).is_failed());
    assert!(!QueryState::Idle.is_loading());
    assert!(!QueryState::Ready.is_failed());
}

#[test]
fn retry_returns_fresh_sequences_test() {
    let schedule = Retry::new(vec![100, 100, 100]);
    let first = schedule.get();
    let second = schedule.get();
    assert_eq!(first, vec![100, 100, 100]);
    assert_eq!(first, second);
    let total: u64 = first.iter().sum();
    assert!(total >= 300);
}

#[test]
fn query_options_test() {
    let schedule = Retry::new(vec![5]);
    let options = QueryOptions::new()
        .cache_time(400)
        .refetch_time(200)
        .retry(schedule);
    assert_eq!(options.cache_time, Some(400));
    assert_eq!(options.refetch_time, Some(200));
    assert!(options.retry.is_some());
}

#[test]
fn per_request_options_fill_in_defaults_test() {
    // A client with no defaults takes the request's own options.
    let mut client = QueryClient::<VecCache>::builder().build();
    let key = key_of("color", TAG_STRING);
    let options = QueryOptions::new().cache_time(250);

    let plan = client.fetch_query_with_options(&key, Some(&options), 0);
    assert!(matches!(plan, FetchPlan::Fetch { store: true, .. }));
    client.complete_query(&key, Ok(text("teal")), 0).unwrap();

    assert_eq!(client.get_query(&key).unwrap().cache_time, Some(250));
    assert_eq!(client.get_query_data(&key, TAG_STRING, 100).ok(), Some(text("teal")));
    assert!(matches!(
        client.get_query_data(&key, TAG_STRING, 250),
        Err(query_cache::QueryError::StaleValue)
    ));
}

#[test]
fn cached_memo_test() {
    let mut memo: Cached<u32> = Cached::new();
    assert!(!memo.is_resolved());
    assert!(memo.last_value().is_none());

    let seeded = Cached::with_initial(Some(9u32));
    assert!(!seeded.is_resolved());
    assert_eq!(seeded.last_value(), Some(&9));

    memo.resolve(42);
    assert!(memo.is_resolved());
    assert_eq!(memo.last_value(), Some(&42));
}

#[test]
fn id_chain_test() {
    let first = Id::first();
    let second = first.next();
    let third = second.next();
    assert_eq!(first.value, 1);
    assert_eq!(second.value, 2);
    assert_eq!(third.value, 3);
    assert_ne!(first, second);
}

#[test]
fn infinite_data_pages_test() {
    let pages: InfiniteData<u32> = InfiniteData::new();
    assert!(pages.pages.is_empty());
}

#[test]
fn observer_tracks_state_test() {
    let mut client = QueryClient::<VecCache>::builder().cache_time(300).build();
    let key = key_of("badge", TAG_STRING);
    let observer = query_cache::QueryObserver::new(key.clone());

    assert!(observer.last_state(&client).is_none());
    assert!(observer.last_value(&client).is_none());

    let plan = observer.observe(&mut client, 0);
    assert!(matches!(plan, FetchPlan::Fetch { store: true, .. }));
    assert!(observer.is_fetching(&client));
    assert_eq!(observer.last_state(&client), Some(QueryState::Loading));

    client.complete_query(&key, Ok(text("gold")), 0).unwrap();
    assert!(!observer.is_fetching(&client));
    assert_eq!(observer.last_state(&client), Some(QueryState::Ready));
    assert_eq!(observer.last_value(&client), Some(&text("gold")));
    assert!(!observer.is_stale(&client, 100));
    assert!(observer.is_stale(&client, 300));
}
