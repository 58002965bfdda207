use redis_module::string::{Context, RedisString};
use redis_module::value::RedisError;
use redis_module::zset::{
    extract_bound, Advance, KeyType, Phase, RangeRequest, Score, ScoreBound, Status,
    ZSetScoreIterator,
};

/// A stand-in for the host: one key, its members by ascending score, and at
/// most one open cursor.
struct Host {
    key_type: KeyType,
    members: Vec<(f64, &'static str)>,
    range: Option<(usize, usize)>,
    position: isize,
    open_cursors: usize,
    opened: usize,
    released: usize,
}

fn host(key_type: KeyType, members: &[(f64, &'static str)]) -> Host {
    Host {
        key_type,
        members: members.to_vec(),
        range: None,
        position: 0,
        open_cursors: 0,
        opened: 0,
        released: 0,
    }
}

fn abc() -> Host {
    host(KeyType::ZSet, &[(1.0, "a"), (2.0, "b"), (3.0, "c")])
}

impl Host {
    fn open(&mut self, request: RangeRequest) -> Status {
        let min = f64::from_bits(request.min.bits);
        let max = f64::from_bits(request.max.bits);
        let inside: Vec<usize> = (0..self.members.len())
            .filter(|&k| {
                let score = self.members[k].0;
                let above = if request.min_exclusive { score > min } else { score >= min };
                let below = if request.max_exclusive { score < max } else { score <= max };
                above && below
            })
            .collect();
        if self.key_type != KeyType::ZSet || self.members.is_empty() {
            return Status::Failed;
        }
        let (first, end) = match (inside.first(), inside.last()) {
            (Some(&first), Some(&last)) => (first, last + 1),
            _ => (0, 0),
        };
        self.range = Some((first, end));
        self.position = if request.last { end as isize - 1 } else { first as isize };
        self.open_cursors += 1;
        self.opened += 1;
        Status::Okay
    }

    fn end_reached(&self) -> i32 {
        let (first, end) = self.range.expect("a cursor is open");
        if self.position < first as isize || self.position >= end as isize {
            1
        } else {
            0
        }
    }

    fn current(&self) -> Vec<u8> {
        self.members[self.position as usize].1.as_bytes().to_vec()
    }

    fn advance(&mut self, advance: Advance) {
        match advance {
            Advance::Next => self.position += 1,
            Advance::Prev => self.position -= 1,
        }
    }

    fn stop(&mut self) {
        assert!(self.open_cursors > 0, "nothing to release");
        self.range = None;
        self.open_cursors -= 1;
        self.released += 1;
    }
}

fn included(score: f64) -> ScoreBound {
    ScoreBound::Included(Score { bits: score.to_bits() })
}

fn excluded(score: f64) -> ScoreBound {
    ScoreBound::Excluded(Score { bits: score.to_bits() })
}

fn start(
    host: &mut Host,
    lower: ScoreBound,
    upper: ScoreBound,
    last: bool,
) -> Result<ZSetScoreIterator, RedisError> {
    let mut cursor = ZSetScoreIterator::new(host.key_type, lower, upper, last)?;
    assert_eq!(cursor.phase(), Phase::Uninitialized);
    let status = host.open(cursor.request());
    cursor.open(status)?;
    Ok(cursor)
}

fn take(host: &mut Host, cursor: &mut ZSetScoreIterator, backward: bool) -> Option<String> {
    let reached = host.end_reached();
    let advance = if backward { cursor.next_back(reached) } else { cursor.next(reached) }?;
    let item = RedisString::from_redis_module_string(Context { id: 1 }, host.current());
    host.advance(advance);
    Some(RedisString::from_ptr(item.as_bytes()).expect("members are text").to_string())
}

fn finish(host: &mut Host, mut cursor: ZSetScoreIterator) {
    if cursor.stop() {
        host.stop();
    }
    assert_eq!(cursor.phase(), Phase::Stopped);
}

fn walk(host: &mut Host, lower: ScoreBound, upper: ScoreBound, backward: bool) -> Vec<String> {
    let mut cursor = start(host, lower, upper, backward).expect("the cursor opens");
    let mut members = Vec::new();
    while let Some(member) = take(host, &mut cursor, backward) {
        members.push(member);
    }
    assert_eq!(take(host, &mut cursor, backward), None);
    finish(host, cursor);
    members
}

#[test]
fn forward_over_inclusive_interval() {
    let mut host = abc();
    assert_eq!(walk(&mut host, included(1.0), included(2.0), false), ["a", "b"]);
    assert_eq!(host.open_cursors, 0);
    assert_eq!(host.released, 1);
}

#[test]
fn backward_over_inclusive_interval() {
    let mut host = abc();
    assert_eq!(walk(&mut host, included(1.0), included(2.0), true), ["b", "a"]);
    assert_eq!(host.open_cursors, 0);
}

#[test]
fn exclusive_lower_end_is_left_out() {
    let mut host = abc();
    assert_eq!(walk(&mut host, excluded(1.0), included(3.0), false), ["b", "c"]);
    assert_eq!(walk(&mut host, excluded(1.0), included(3.0), true), ["c", "b"]);
}

#[test]
fn exclusive_upper_end_is_left_out() {
    let mut host = abc();
    assert_eq!(walk(&mut host, included(1.0), excluded(3.0), false), ["a", "b"]);
    assert_eq!(walk(&mut host, excluded(1.0), excluded(3.0), false), ["b"]);
    assert_eq!(walk(&mut host, excluded(2.0), excluded(3.0), false), Vec::<String>::new());
}

#[test]
fn interval_without_members_yields_nothing() {
    let mut host = abc();
    assert_eq!(walk(&mut host, included(4.0), included(9.0), false), Vec::<String>::new());
    assert_eq!(walk(&mut host, included(4.0), included(9.0), true), Vec::<String>::new());
    assert_eq!(host.open_cursors, 0);
}

#[test]
fn request_carries_the_bounds_unchanged() {
    let cursor = ZSetScoreIterator::new(KeyType::ZSet, excluded(-0.5), included(1e300), true)
        .expect("finite bounds on a sorted set");
    assert_eq!(
        cursor.request(),
        RangeRequest {
            last: true,
            min: Score { bits: (-0.5f64).to_bits() },
            max: Score { bits: 1e300f64.to_bits() },
            min_exclusive: true,
            max_exclusive: false,
        }
    );
    let cursor = ZSetScoreIterator::new(KeyType::ZSet, included(0.0), excluded(0.0), false)
        .expect("finite bounds on a sorted set");
    assert_eq!(
        cursor.request(),
        RangeRequest {
            last: false,
            min: Score { bits: 0 },
            max: Score { bits: 0 },
            min_exclusive: false,
            max_exclusive: true,
        }
    );
}

#[test]
fn wrong_type_is_refused_and_opens_nothing() {
    for key_type in [
        KeyType::Empty,
        KeyType::String,
        KeyType::List,
        KeyType::Hash,
        KeyType::PlainSet,
        KeyType::Module,
        KeyType::Stream,
    ] {
        let mut host = host(key_type, &[(1.0, "a")]);
        for _ in 0..3 {
            let refused = start(&mut host, included(0.0), included(5.0), false);
            assert!(matches!(refused, Err(RedisError::WrongType)));
        }
        assert_eq!(host.opened, 0);
        assert_eq!(host.open_cursors, 0);
    }
}

#[test]
fn wrong_type_is_judged_before_the_interval() {
    let refused =
        ZSetScoreIterator::new(KeyType::List, ScoreBound::Unbounded, ScoreBound::Unbounded, false);
    assert!(matches!(refused, Err(RedisError::WrongType)));
}

#[test]
fn unbounded_interval_is_refused() {
    let message = "unbounded range is unsupported";
    for last in [false, true] {
        for (lower, upper) in [
            (ScoreBound::Unbounded, included(1.0)),
            (included(1.0), ScoreBound::Unbounded),
            (ScoreBound::Unbounded, excluded(1.0)),
            (excluded(1.0), ScoreBound::Unbounded),
            (ScoreBound::Unbounded, ScoreBound::Unbounded),
        ] {
            let mut host = abc();
            match start(&mut host, lower, upper, last) {
                Err(RedisError::Str(text)) => assert_eq!(text, message),
                _ => panic!("an open-ended interval was accepted"),
            }
            assert_eq!(host.opened, 0);
        }
    }
}

#[test]
fn bound_splits_into_score_and_flag() {
    let score = Score { bits: 2.5f64.to_bits() };
    assert!(matches!(extract_bound(ScoreBound::Included(score)), Ok((s, false)) if s == score));
    assert!(matches!(extract_bound(ScoreBound::Excluded(score)), Ok((s, true)) if s == score));
    assert!(matches!(
        extract_bound(ScoreBound::Unbounded),
        Err(RedisError::Str("unbounded range is unsupported"))
    ));
}

#[test]
fn host_refusal_is_reported_and_owes_nothing() {
    let mut host = host(KeyType::ZSet, &[]);
    let mut cursor = ZSetScoreIterator::new(KeyType::ZSet, included(0.0), included(1.0), false)
        .expect("finite bounds on a sorted set");
    let status = host.open(cursor.request());
    assert_eq!(status, Status::Failed);
    match cursor.open(status) {
        Err(RedisError::Str(text)) => assert_eq!(text, "failed to create ZSet iterator"),
        _ => panic!("the refusal was not reported"),
    }
    assert_eq!(cursor.phase(), Phase::Uninitialized);
    assert_eq!(cursor.next(0), None);
    assert_eq!(cursor.next_back(0), None);
    assert!(!cursor.stop());
    assert_eq!(cursor.phase(), Phase::Stopped);
    assert_eq!(host.open_cursors, 0);
}

#[test]
fn dropping_midway_releases_and_a_new_cursor_starts_over() {
    let mut host = abc();
    let mut cursor = start(&mut host, included(1.0), included(3.0), false).expect("opens");
    assert_eq!(cursor.phase(), Phase::Active);
    assert_eq!(take(&mut host, &mut cursor, false), Some(String::from("a")));
    assert_eq!(cursor.phase(), Phase::Active);
    assert_eq!(host.open_cursors, 1);
    finish(&mut host, cursor);
    assert_eq!(host.open_cursors, 0);
    assert_eq!(host.released, 1);
    assert_eq!(walk(&mut host, included(1.0), included(3.0), false), ["a", "b", "c"]);
    assert_eq!(walk(&mut host, included(2.0), included(3.0), false), ["b", "c"]);
    assert_eq!(host.open_cursors, 0);
    assert_eq!(host.released, 3);
}

#[test]
fn steps_follow_the_hosts_answer() {
    let mut cursor = ZSetScoreIterator::new(KeyType::ZSet, included(1.0), included(2.0), false)
        .expect("finite bounds on a sorted set");
    assert_eq!(cursor.next(0), None);
    assert!(cursor.open(Status::Okay).is_ok());
    assert_eq!(cursor.next(0), Some(Advance::Next));
    assert_eq!(cursor.next_back(0), Some(Advance::Prev));
    assert_eq!(cursor.next(2), Some(Advance::Next));
    assert_eq!(cursor.next(-1), Some(Advance::Next));
    assert_eq!(cursor.next(1), None);
    assert_eq!(cursor.next_back(1), None);
    assert_eq!(cursor.phase(), Phase::Active);
    assert_eq!(cursor.next(0), Some(Advance::Next));
    assert!(cursor.stop());
    assert_eq!(cursor.next(0), None);
    assert_eq!(cursor.next_back(0), None);
    assert!(!cursor.stop());
    assert_eq!(cursor.phase(), Phase::Stopped);
}

#[test]
fn host_codes_are_read() {
    assert_eq!(KeyType::from_code(0), Some(KeyType::Empty));
    assert_eq!(KeyType::from_code(1), Some(KeyType::String));
    assert_eq!(KeyType::from_code(2), Some(KeyType::List));
    assert_eq!(KeyType::from_code(3), Some(KeyType::Hash));
    assert_eq!(KeyType::from_code(4), Some(KeyType::PlainSet));
    assert_eq!(KeyType::from_code(5), Some(KeyType::ZSet));
    assert_eq!(KeyType::from_code(6), Some(KeyType::Module));
    assert_eq!(KeyType::from_code(7), Some(KeyType::Stream));
    assert_eq!(KeyType::from_code(8), None);
    assert_eq!(KeyType::from_code(-1), None);
    assert_eq!(Status::from_code(0), Some(Status::Okay));
    assert_eq!(Status::from_code(1), Some(Status::Failed));
    assert_eq!(Status::from_code(2), None);
    assert_eq!(Status::from_code(-1), None);
}
