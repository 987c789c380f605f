use query_cache::Error;
use query_cache::FetchPlan;
use query_cache::FetchRun;
use query_cache::FetchStep;
use query_cache::Key;
use query_cache::QueryClient;
use query_cache::QueryError;
use query_cache::QueryKey;
use query_cache::QueryValue;
use query_cache::Retry;
use query_cache::VecCache;

const TAG_ITEM: u64 = 7;
const TAG_STRING: u64 = 1;

fn key_of(name: &str, ty: u64) -> QueryKey {
    QueryKey::of(Key::new(name.to_string()), ty)
}

fn text(s: &str) -> QueryValue {
    QueryValue::Text(s.to_string())
}

/// Drives one fetch plan to completion: runs `fetch` under a `FetchRun`
/// over the plan's delays (advancing the logical clock by each backoff
/// delay), and reports the outcome back when the plan asks for it.
fn run_plan<F>(
    client: &mut QueryClient<VecCache>,
    key: &QueryKey,
    plan: FetchPlan,
    now: &mut u64,
    fetch: &mut F,
) -> Result<QueryValue, Error>
where
    F: FnMut() -> Result<QueryValue, Error>,
{
    match plan {
        FetchPlan::Value(v) => Ok(v),
        FetchPlan::Join => panic!("nothing to join in a single-caller test"),
        FetchPlan::Fetch { delays, store } => {
            let schedule = Retry::new(delays);
            let mut run = FetchRun::new(Some(&schedule));
            loop {
                let outcome = fetch();
                match run.on_result(outcome) {
                    FetchStep::Done(result) => {
                        if store {
                            return client.complete_query(key, result, *now);
                        }
                        return result;
                    }
                    FetchStep::RetryAfter(delay) => {
                        *now += delay;
                    }
                }
            }
        }
    }
}

fn fetch_once<F>(
    client: &mut QueryClient<VecCache>,
    key: &QueryKey,
    now: &mut u64,
    fetch: &mut F,
) -> Result<QueryValue, Error>
where
    F: FnMut() -> Result<QueryValue, Error>,
{
    let plan = client.fetch_query(key, *now);
    run_plan(client, key, plan, now, fetch)
}

#[test]
fn fetch_and_cache_query_test() {
    let mut client = QueryClient::<VecCache>::builder().cache_time(400).build();
    let key = key_of("sword", TAG_ITEM);

    assert!(!client.contains_query(&key));

    let mut now: u64 = 0;
    let ret = fetch_once(&mut client, &key, &mut now, &mut || Ok(text("Fire Sword")))
        .unwrap();
    assert_eq!(ret, text("Fire Sword"));

    assert!(!client.is_stale(&key, now));
    assert_eq!(client.get_query_data(&key, TAG_ITEM, now).ok(), Some(text("Fire Sword")));

    // Let the data expire.
    now += 500;

    assert!(client.is_stale(&key, now));
    assert!(matches!(
        client.get_query_data(&key, TAG_ITEM, now),
        Err(QueryError::StaleValue)
    ));
}

#[test]
fn refetch_and_cache_query_test() {
    let mut client = QueryClient::<VecCache>::builder().cache_time(200).build();
    let key = key_of("color", TAG_STRING);

    let mut now: u64 = 0;
    let value = fetch_once(&mut client, &key, &mut now, &mut || Ok(text("magenta")))
        .unwrap();
    assert!(client.has_query_data(&key, now));
    assert_eq!(value, text("magenta"));

    // Wait for timeout.
    now += 300;

    // Expired.
    assert!(!client.has_query_data(&key, now));

    // Refetch.
    let plan = client.refetch_query(&key, now).unwrap();
    let value = run_plan(&mut client, &key, plan, &mut now, &mut || Ok(text("magenta")))
        .unwrap();
    assert!(client.has_query_data(&key, now));
    assert_eq!(value, text("magenta"));
}

#[test]
fn set_and_get_query_data_test() {
    let mut client = QueryClient::<VecCache>::builder().cache_time(200).build();
    let key = key_of("color", TAG_STRING);

    let mut now: u64 = 0;
    fetch_once(&mut client, &key, &mut now, &mut || Ok(text("pink"))).unwrap();

    assert_eq!(client.get_query_data(&key, TAG_STRING, now).ok(), Some(text("pink")));
    assert!(client.has_query_data(&key, now));

    // Wait for timeout.
    now += 300;

    assert!(!client.has_query_data(&key, now));

    // Sets the data.
    client.set_query_data(&key, TAG_STRING, text("aqua"), now).unwrap();

    assert_eq!(client.get_query_data(&key, TAG_STRING, now).ok(), Some(text("aqua")));

    // Wait for timeout.
    now += 300;

    assert!(matches!(
        client.get_query_data(&key, TAG_STRING, now),
        Err(QueryError::StaleValue)
    ));
}

#[test]
fn contains_and_get_query_then_remove_test() {
    let mut client = QueryClient::<VecCache>::builder().cache_time(200).build();
    let key = key_of("fruit", TAG_STRING);

    assert!(!client.contains_query(&key));
    assert!(client.get_query(&key).is_none());
    assert!(!client.has_query_data(&key, 0));

    let mut now: u64 = 0;
    fetch_once(&mut client, &key, &mut now, &mut || Ok(text("strawberry"))).unwrap();

    assert!(client.contains_query(&key));
    assert!(client.get_query(&key).is_some());
    assert!(client.has_query_data(&key, now));

    // Wait for timeout.
    now += 300;

    assert!(client.contains_query(&key));
    assert!(client.get_query(&key).is_some());
    assert!(!client.has_query_data(&key, now));

    // Remove the query.
    client.remove_query_data(&key);

    assert!(!client.contains_query(&key));
    assert!(client.get_query(&key).is_none());
    assert!(!client.has_query_data(&key, now));
}

#[test]
fn clear_queries_test() {
    let mut client = QueryClient::<VecCache>::builder().cache_time(200).build();
    let fruit_key = key_of("fruit", TAG_STRING);
    let color_key = key_of("color", TAG_STRING);

    let mut now: u64 = 0;
    fetch_once(&mut client, &fruit_key, &mut now, &mut || Ok(text("apple"))).unwrap();
    fetch_once(&mut client, &color_key, &mut now, &mut || Ok(text("red"))).unwrap();

    assert!(client.contains_query(&fruit_key));
    assert!(client.contains_query(&color_key));

    client.clear_queries();

    assert!(!client.contains_query(&fruit_key));
    assert!(!client.contains_query(&color_key));
}

#[test]
fn query_with_refetch_test() {
    let mut client = QueryClient::<VecCache>::builder()
        .cache_time(300)
        .refetch_time(400)
        .build();
    let key = key_of("fruit", TAG_STRING);

    let mut now: u64 = 0;
    fetch_once(&mut client, &key, &mut now, &mut || Ok(text("pineapple"))).unwrap();
    assert!(client.has_query_data(&key, now));

    // Timeout.
    assert!(!client.has_query_data(&key, 300));

    // The background refetch fires at 400 and at 800.
    let mut tick: u64 = 400;
    let plan = client.poll_refetch(&key, tick).expect("tick due");
    run_plan(&mut client, &key, plan, &mut tick, &mut || Ok(text("pineapple"))).unwrap();

    let mut tick: u64 = 800;
    let plan = client.poll_refetch(&key, tick).expect("tick due");
    run_plan(&mut client, &key, plan, &mut tick, &mut || Ok(text("pineapple"))).unwrap();

    // After observing for 300 + 600 milliseconds the data is fresh again.
    assert!(client.has_query_data(&key, 900));
}

#[test]
fn get_query_data_errors_test() {
    let mut client = QueryClient::<VecCache>::builder().cache_time(200).build();
    let key = key_of("color", TAG_STRING);

    // No entry yet.
    assert!(matches!(
        client.get_query_data(&key, TAG_STRING, 0),
        Err(QueryError::KeyNotFound(_))
    ));

    // An entry that is loading has not resolved yet.
    let plan = client.fetch_query(&key, 0);
    assert!(matches!(plan, FetchPlan::Fetch { store: true, .. }));
    assert!(matches!(
        client.get_query_data(&key, TAG_STRING, 0),
        Err(QueryError::NotReady)
    ));

    // A read at the wrong tag is a type mismatch, not a missing key.
    client.complete_query(&key, Ok(text("pink")), 0).unwrap();
    assert!(matches!(
        client.get_query_data(&key, TAG_ITEM, 0),
        Err(QueryError::TypeMismatch(_))
    ));

    // Writes are checked the same way.
    assert!(matches!(
        client.set_query_data(&key, TAG_ITEM, text("aqua"), 0),
        Err(QueryError::TypeMismatch(_))
    ));
    assert!(matches!(
        client.set_query_data(&key_of("shape", TAG_STRING), TAG_STRING, text("round"), 0),
        Err(QueryError::KeyNotFound(_))
    ));
    assert!(matches!(
        client.refetch_query(&key_of("shape", TAG_STRING), 0),
        Err(QueryError::KeyNotFound(_))
    ));
}

#[test]
fn uncached_pass_through_test() {
    // A client with no time-to-live never stores anything.
    let mut client = QueryClient::<VecCache>::builder().build();
    let key = key_of("color", TAG_STRING);

    let mut now: u64 = 0;
    let plan = client.fetch_query(&key, now);
    assert!(matches!(plan, FetchPlan::Fetch { store: false, .. }));
    let value = run_plan(&mut client, &key, plan, &mut now, &mut || Ok(text("red"))).unwrap();
    assert_eq!(value, text("red"));
    assert!(!client.contains_query(&key));
}
