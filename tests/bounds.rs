use leveldb_cursor::bounded::{CursorOp, Direction, Step, Traversal};
use leveldb_cursor::iterator::Iterator as EntryIterator;
use leveldb_cursor::iterator::{KeyIterator, RevIterator, ValueIterator};
use leveldb_cursor::options::{Compression, Options, ReadOptions, WriteOptions};
use leveldb_cursor::order::{bytes_le, has_prefix};

type Entry = (Vec<u8>, Vec<u8>);

struct Cursor<'s> {
    entries: &'s [Entry],
    pos: isize,
}

impl<'s> Cursor<'s> {
    fn current(&self) -> Option<&'s [u8]> {
        if self.pos >= 0 && (self.pos as usize) < self.entries.len() {
            Some(&self.entries[self.pos as usize].0)
        } else {
            None
        }
    }

    fn seek(&mut self, key: &[u8]) {
        self.pos = self.entries.iter().take_while(|e| e.0.as_slice() < key).count() as isize;
    }

    fn apply(&mut self, op: CursorOp, bounds: (Option<&[u8]>, Option<&[u8]>, Option<&[u8]>)) {
        match op {
            CursorOp::SeekToFirst => self.pos = 0,
            CursorOp::SeekToLast => self.pos = self.entries.len() as isize - 1,
            CursorOp::SeekFrom => self.seek(bounds.0.unwrap()),
            CursorOp::SeekTo => self.seek(bounds.1.unwrap()),
            CursorOp::SeekPrefix => self.seek(bounds.2.unwrap()),
            CursorOp::Next => {
                assert!(self.current().is_some(), "stepped an invalid cursor");
                self.pos += 1
            }
            CursorOp::Prev => {
                assert!(self.current().is_some(), "stepped an invalid cursor");
                self.pos -= 1
            }
        }
    }
}

fn simple(keys: &[u8]) -> Vec<Entry> {
    keys.iter().map(|k| (vec![*k], vec![*k])).collect()
}

fn multi(keys: &[&[u8]]) -> Vec<Entry> {
    let mut e: Vec<Entry> = keys.iter().map(|k| (k.to_vec(), k.to_vec())).collect();
    e.sort();
    e
}

fn fwd_keys(it: &mut EntryIterator, c: &mut Cursor) -> Vec<Vec<u8>> {
    let mut out = Vec::new();
    loop {
        let mut step = it.advance(c.current());
        let ok = loop {
            match step {
                Step::Done(ok) => break ok,
                Step::Move(op) => {
                    c.apply(op, (it.from_key(), it.to_key(), it.prefix_key()));
                    step = it.resume(c.current());
                }
            }
        };
        if !ok {
            return out;
        }
        out.push(c.current().unwrap().to_vec());
    }
}

fn rev_keys(it: &mut RevIterator, c: &mut Cursor) -> Vec<Vec<u8>> {
    let mut out = Vec::new();
    loop {
        let mut step = it.advance(c.current());
        let ok = loop {
            match step {
                Step::Done(ok) => break ok,
                Step::Move(op) => {
                    c.apply(op, (it.from_key(), it.to_key(), it.prefix_key()));
                    step = it.resume(c.current());
                }
            }
        };
        if !ok {
            return out;
        }
        out.push(c.current().unwrap().to_vec());
    }
}

fn last_key(it: &mut EntryIterator, c: &mut Cursor) -> Option<Vec<u8>> {
    let mut step = it.last();
    loop {
        match step {
            Step::Done(true) => return Some(c.current().unwrap().to_vec()),
            Step::Done(false) => return None,
            Step::Move(op) => {
                c.apply(op, (it.from_key(), it.to_key(), it.prefix_key()));
                step = it.resume(c.current());
            }
        }
    }
}

fn new_forward<'a>(c: &mut Cursor) -> EntryIterator<'a> {
    let (it, op) = EntryIterator::new();
    c.apply(op, (None, None, None));
    it
}

fn new_reverse<'a>(it: EntryIterator<'a>, c: &mut Cursor) -> RevIterator<'a> {
    let (rev, op) = it.reverse();
    if let Some(op) = op {
        c.apply(op, (rev.from_key(), rev.to_key(), rev.prefix_key()));
    }
    rev
}

fn keys(ks: &[&[u8]]) -> Vec<Vec<u8>> {
    ks.iter().map(|k| k.to_vec()).collect()
}

#[test]
fn empty_store_yields_nothing() {
    let entries: Vec<Entry> = Vec::new();
    let mut c = Cursor { entries: &entries, pos: -1 };
    let mut it = new_forward(&mut c);
    assert_eq!(it.advance(c.current()), Step::Done(false));
    let mut c2 = Cursor { entries: &entries, pos: -1 };
    let it2 = new_forward(&mut c2).from(&[3]);
    let mut rev = new_reverse(it2, &mut c2);
    assert!(rev_keys(&mut rev, &mut c2).is_empty());
}

#[test]
fn forward_visits_every_key_in_order() {
    let entries = multi(&[&[5], &[1, 2], &[1], &[0, 9], &[200]]);
    let mut c = Cursor { entries: &entries, pos: -1 };
    let mut it = new_forward(&mut c);
    assert_eq!(fwd_keys(&mut it, &mut c), keys(&[&[0, 9], &[1], &[1, 2], &[5], &[200]]));
}

#[test]
fn reverse_visits_every_key_backwards() {
    let entries = multi(&[&[5], &[1, 2], &[1], &[0, 9], &[200]]);
    let mut c = Cursor { entries: &entries, pos: -1 };
    let it = new_forward(&mut c);
    let mut rev = new_reverse(it, &mut c);
    assert_eq!(rev_keys(&mut rev, &mut c), keys(&[&[200], &[5], &[1, 2], &[1], &[0, 9]]));
}

#[test]
fn from_scenario_ascending_to_exhaustion() {
    let entries = simple(&[1, 2, 3, 4, 5]);
    let mut c = Cursor { entries: &entries, pos: -1 };
    let mut it = new_forward(&mut c).from(&[3]);
    assert_eq!(fwd_keys(&mut it, &mut c), keys(&[&[3], &[4], &[5]]));
    // exhausted for good: the cursor is not stepped again
    assert_eq!(it.advance(c.current()), Step::Done(false));
}

#[test]
fn from_absent_key_starts_at_neighbours() {
    let entries = simple(&[1, 2, 4, 5]);
    let mut c = Cursor { entries: &entries, pos: -1 };
    let mut it = new_forward(&mut c).from(&[3]);
    assert_eq!(fwd_keys(&mut it, &mut c), keys(&[&[4], &[5]]));
    let mut c2 = Cursor { entries: &entries, pos: -1 };
    let it2 = new_forward(&mut c2).from(&[3]);
    let mut rev = new_reverse(it2, &mut c2);
    assert_eq!(rev_keys(&mut rev, &mut c2), keys(&[&[2], &[1]]));
}

#[test]
fn from_beyond_every_key_in_reverse_starts_at_last() {
    let entries = simple(&[1, 2]);
    let mut c = Cursor { entries: &entries, pos: -1 };
    let it = new_forward(&mut c).from(&[9]);
    let mut rev = new_reverse(it, &mut c);
    assert_eq!(rev.advance(c.current()), Step::Move(CursorOp::SeekFrom));
    c.apply(CursorOp::SeekFrom, (rev.from_key(), None, None));
    assert_eq!(c.current(), None);
    assert_eq!(rev.resume(c.current()), Step::Move(CursorOp::SeekToLast));
    c.apply(CursorOp::SeekToLast, (None, None, None));
    assert_eq!(rev.resume(c.current()), Step::Done(true));
    assert_eq!(c.current(), Some(&[2u8][..]));
}

#[test]
fn from_below_every_key_forward_and_reverse() {
    let entries = simple(&[5, 6]);
    let mut c = Cursor { entries: &entries, pos: -1 };
    let mut it = new_forward(&mut c).from(&[1]);
    assert_eq!(fwd_keys(&mut it, &mut c), keys(&[&[5], &[6]]));
    let mut c2 = Cursor { entries: &entries, pos: -1 };
    let it2 = new_forward(&mut c2).from(&[1]);
    let mut rev = new_reverse(it2, &mut c2);
    assert!(rev_keys(&mut rev, &mut c2).is_empty());
}

#[test]
fn to_forward_ends_at_largest_key_not_above() {
    let entries = simple(&[1, 2, 4, 5]);
    let mut c = Cursor { entries: &entries, pos: -1 };
    let mut it = new_forward(&mut c).to(&[3]);
    assert_eq!(fwd_keys(&mut it, &mut c), keys(&[&[1], &[2]]));
}

#[test]
fn to_reverse_ends_at_smallest_key_not_below() {
    let entries = simple(&[1, 2, 4, 5]);
    let mut c = Cursor { entries: &entries, pos: -1 };
    let it = new_forward(&mut c).to(&[3]);
    let mut rev = new_reverse(it, &mut c);
    assert_eq!(rev_keys(&mut rev, &mut c), keys(&[&[5], &[4]]));
}

#[test]
fn to_above_every_key_in_reverse_keeps_only_keys_not_below() {
    // in reverse a `to` bound keeps the keys at or above it: none here
    let entries = simple(&[1, 2]);
    let mut c = Cursor { entries: &entries, pos: -1 };
    let it = new_forward(&mut c).to(&[3]);
    let mut rev = new_reverse(it, &mut c);
    assert!(rev_keys(&mut rev, &mut c).is_empty());
}

#[test]
fn prefix_ignores_from_and_to() {
    let entries = multi(&[&[1], &[2], &[2, 1], &[2, 1, 1], &[2, 2], &[2, 3], &[3, 1], &[3, 2]]);
    let mut c = Cursor { entries: &entries, pos: -1 };
    let mut it = new_forward(&mut c).from(&[3]).to(&[1]).prefix(&[2]);
    assert_eq!(
        fwd_keys(&mut it, &mut c),
        keys(&[&[2], &[2, 1], &[2, 1, 1], &[2, 2], &[2, 3]])
    );
}

#[test]
fn prefix_reverse_yields_every_match_descending() {
    let entries = multi(&[&[1], &[2], &[2, 1], &[2, 1, 1], &[2, 2], &[2, 3], &[3, 1], &[3, 2]]);
    let mut c = Cursor { entries: &entries, pos: -1 };
    let it = new_forward(&mut c).prefix(&[2]);
    let mut rev = new_reverse(it, &mut c);
    assert_eq!(
        rev_keys(&mut rev, &mut c),
        keys(&[&[2, 3], &[2, 2], &[2, 1, 1], &[2, 1], &[2]])
    );
}

#[test]
fn prefix_reverse_two_keys() {
    let entries = multi(&[&[2], &[2, 1]]);
    let mut c = Cursor { entries: &entries, pos: -1 };
    let it = new_forward(&mut c).prefix(&[2]);
    let mut rev = new_reverse(it, &mut c);
    assert_eq!(rev_keys(&mut rev, &mut c), keys(&[&[2, 1], &[2]]));
}

#[test]
fn prefix_reverse_run_at_end_of_store_and_bounds_ignored() {
    let entries = multi(&[&[1], &[3], &[3, 0], &[3, 7]]);
    let mut c = Cursor { entries: &entries, pos: -1 };
    let it = new_forward(&mut c).from(&[0]).to(&[9]).prefix(&[3]);
    let mut rev = new_reverse(it, &mut c);
    assert_eq!(rev_keys(&mut rev, &mut c), keys(&[&[3, 7], &[3, 0], &[3]]));
}

#[test]
fn prefix_reverse_without_match_yields_nothing() {
    let entries = multi(&[&[1], &[3, 1]]);
    let mut c = Cursor { entries: &entries, pos: -1 };
    let it = new_forward(&mut c).prefix(&[2]);
    let mut rev = new_reverse(it, &mut c);
    assert!(rev_keys(&mut rev, &mut c).is_empty());
    let empty: Vec<Entry> = Vec::new();
    let mut c2 = Cursor { entries: &empty, pos: -1 };
    let it2 = new_forward(&mut c2).prefix(&[2]);
    let mut rev2 = new_reverse(it2, &mut c2);
    assert!(rev_keys(&mut rev2, &mut c2).is_empty());
}

#[test]
fn prefix_without_match_yields_nothing() {
    let entries = multi(&[&[1], &[3, 1]]);
    let mut c = Cursor { entries: &entries, pos: -1 };
    let mut it = new_forward(&mut c).prefix(&[2]);
    assert!(fwd_keys(&mut it, &mut c).is_empty());
}

#[test]
fn last_without_bounds_and_on_empty_store() {
    let entries = simple(&[1, 7, 9]);
    let mut c = Cursor { entries: &entries, pos: -1 };
    let mut it = new_forward(&mut c);
    assert_eq!(last_key(&mut it, &mut c), Some(vec![9]));
    let empty: Vec<Entry> = Vec::new();
    let mut c2 = Cursor { entries: &empty, pos: -1 };
    let mut it2 = new_forward(&mut c2);
    assert_eq!(last_key(&mut it2, &mut c2), None);
}

#[test]
fn last_with_absent_to_key_is_the_key_below() {
    let entries = simple(&[1, 2, 4, 5]);
    let mut c = Cursor { entries: &entries, pos: -1 };
    let mut it = new_forward(&mut c).to(&[3]);
    assert_eq!(last_key(&mut it, &mut c), Some(vec![2]));
    let mut c2 = Cursor { entries: &entries, pos: -1 };
    let mut it2 = new_forward(&mut c2).to(&[4]);
    assert_eq!(last_key(&mut it2, &mut c2), Some(vec![4]));
    let mut c3 = Cursor { entries: &entries, pos: -1 };
    let mut it3 = new_forward(&mut c3).to(&[9]);
    assert_eq!(last_key(&mut it3, &mut c3), Some(vec![5]));
}

#[test]
fn last_outside_from_bound_is_none() {
    let entries = simple(&[1, 2, 4, 5]);
    let mut c = Cursor { entries: &entries, pos: -1 };
    let mut it = new_forward(&mut c).from(&[3]).to(&[3]);
    assert_eq!(last_key(&mut it, &mut c), None);
}

#[test]
fn last_with_prefix_is_the_final_match() {
    let entries = multi(&[&[1], &[2], &[2, 1], &[2, 1, 1], &[2, 2], &[2, 3], &[3, 1], &[3, 2]]);
    let mut c = Cursor { entries: &entries, pos: -1 };
    let mut it = new_forward(&mut c).prefix(&[2]);
    assert_eq!(last_key(&mut it, &mut c), Some(vec![2, 3]));
    let mut c2 = Cursor { entries: &entries, pos: -1 };
    let mut it2 = new_forward(&mut c2).prefix(&[3]);
    assert_eq!(last_key(&mut it2, &mut c2), Some(vec![3, 2]));
    let mut c3 = Cursor { entries: &entries, pos: -1 };
    let mut it3 = new_forward(&mut c3).prefix(&[4]);
    assert_eq!(last_key(&mut it3, &mut c3), None);
}

#[test]
fn last_equals_end_of_forward_traversal() {
    let entries = simple(&[1, 3, 5, 7, 9]);
    let mut c = Cursor { entries: &entries, pos: -1 };
    let mut it = new_forward(&mut c).from(&[2]).to(&[8]);
    let all = fwd_keys(&mut it, &mut c);
    let mut c2 = Cursor { entries: &entries, pos: -1 };
    let mut it2 = new_forward(&mut c2).from(&[2]).to(&[8]);
    assert_eq!(last_key(&mut it2, &mut c2), all.last().cloned());
    assert_eq!(all, keys(&[&[3], &[5], &[7]]));
}

#[test]
fn reverse_after_start_keeps_position() {
    let entries = simple(&[1, 2, 3]);
    let mut c = Cursor { entries: &entries, pos: -1 };
    let mut it = new_forward(&mut c);
    assert_eq!(it.advance(c.current()), Step::Done(true));
    assert!(!it.start());
    let (mut rev, op) = it.reverse();
    assert_eq!(op, None);
    assert_eq!(rev.advance(c.current()), Step::Move(CursorOp::Prev));
    let (back, op2) = rev.reverse();
    assert_eq!(op2, None);
    assert!(!back.start());
}

#[test]
fn reverse_before_start_moves_to_opposite_edge() {
    let (it, op) = EntryIterator::new();
    assert_eq!(op, CursorOp::SeekToFirst);
    assert!(it.start());
    let (rev, op) = it.reverse();
    assert_eq!(op, Some(CursorOp::SeekToLast));
    let (_, op) = rev.reverse();
    assert_eq!(op, Some(CursorOp::SeekToFirst));
}

#[test]
fn seek_to_last_honours_to() {
    let (it, _) = EntryIterator::new();
    assert_eq!(it.seek_to_last(), CursorOp::SeekToLast);
    assert_eq!(it.seek_to_first(), CursorOp::SeekToFirst);
    let it = it.to(&[4]);
    assert_eq!(it.seek_to_last(), CursorOp::SeekTo);
    assert_eq!(it.to_key(), Some(&[4u8][..]));
}

#[test]
fn validity_check_by_direction() {
    let (it, _) = EntryIterator::new();
    let it = it.from(&[2]).to(&[4]);
    assert!(it.valid(Some(&[2])));
    assert!(it.valid(Some(&[3, 9])));
    assert!(it.valid(Some(&[4])));
    assert!(!it.valid(Some(&[4, 0])));
    assert!(!it.valid(Some(&[1])));
    assert!(!it.valid(None));
    let (rev, _) = it.reverse();
    assert!(!rev.valid(Some(&[3])));
    let (it2, _) = EntryIterator::new();
    let (rev2, _) = it2.from(&[4]).to(&[2]).reverse();
    assert!(rev2.valid(Some(&[3])));
    assert!(!rev2.valid(Some(&[5])));
    let (it3, _) = EntryIterator::new();
    let it3 = it3.prefix(&[2, 1]);
    assert!(it3.valid(Some(&[2, 1])));
    assert!(it3.valid(Some(&[2, 1, 0])));
    assert!(!it3.valid(Some(&[2])));
}

#[test]
fn projections_keep_their_half() {
    let (ki, _) = KeyIterator::new();
    assert_eq!(ki.project(vec![1], vec![2]), vec![1]);
    let (vi, _) = ValueIterator::new();
    assert_eq!(vi.project(vec![1], vec![2]), vec![2]);
    let (rk, op) = ki.reverse();
    assert_eq!(op, Some(CursorOp::SeekToLast));
    assert_eq!(rk.project(vec![1], vec![2]), vec![1]);
    let (rv, _) = vi.prefix(&[1]).reverse();
    assert_eq!(rv.project(vec![1], vec![2]), vec![2]);
    assert_eq!(rv.prefix_key(), Some(&[1u8][..]));
}

#[test]
fn byte_order_and_prefix() {
    assert!(bytes_le(&[1, 2], &[1, 2]));
    assert!(bytes_le(&[1], &[1, 0]));
    assert!(!bytes_le(&[1, 0], &[1]));
    assert!(bytes_le(&[], &[0]));
    assert!(!bytes_le(&[2], &[1, 255]));
    assert!(has_prefix(&[2, 1, 1], &[2, 1]));
    assert!(has_prefix(&[2], &[]));
    assert!(!has_prefix(&[2], &[2, 1]));
    assert!(!has_prefix(&[3, 1], &[2]));
}

#[test]
fn option_defaults() {
    let o = Options::new();
    assert!(!o.create_if_missing && !o.error_if_exists && !o.paranoid_checks);
    assert_eq!(o.write_buffer_size, None);
    assert_eq!(o.max_open_files, None);
    assert_eq!(o.compression, Compression::No);
    assert!(!WriteOptions::new().sync);
    let r = ReadOptions::default();
    assert!(!r.verify_checksums && r.fill_cache);
}

#[test]
fn direction_and_traversal_values() {
    assert_ne!(Direction::Forward, Direction::Reverse);
    assert_ne!(Traversal::NotStarted, Traversal::Started);
}
