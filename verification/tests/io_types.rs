use rustos::io::{read_one_byte, Chain, Initializer, IoError, Read, SeekFrom, Take};

/// A reader over a byte slice, for exercising the adapters.
struct SliceReader {
    data: Vec<u8>,
    pos: usize,
}

impl Read for SliceReader {
    fn read(&mut self, buf: &mut Vec<u8>) -> Result<usize, IoError> {
        let left = self.data.len() - self.pos;
        let n = buf.len().min(left);
        for i in 0..n {
            buf[i] = self.data[self.pos + i];
        }
        self.pos += n;
        Ok(n)
    }
}

#[test]
fn initializer_reports_zeroing() {
    let init = Initializer::zeroing();
    assert!(init.should_initialize());
}

#[test]
fn take_limits_and_unwraps() {
    let mut t = Take::new(vec![1u8, 2, 3], 2);
    assert_eq!(t.limit(), 2);
    t.set_limit(9);
    assert_eq!(t.limit(), 9);
    assert_eq!(t.get_ref(), &vec![1u8, 2, 3]);
    t.get_mut().push(4);
    assert_eq!(t.into_inner(), vec![1u8, 2, 3, 4]);
}

#[test]
fn chain_holds_both_readers() {
    let mut c = Chain::new(vec![1u8], vec![2u8]);
    {
        let (a, b) = c.get_ref();
        assert_eq!(a, &vec![1u8]);
        assert_eq!(b, &vec![2u8]);
    }
    {
        let (a, b) = c.get_mut();
        a.push(10);
        b.push(20);
    }
    let (a, b) = c.into_inner();
    assert_eq!(a, vec![1u8, 10]);
    assert_eq!(b, vec![2u8, 20]);
}

#[test]
fn io_error_and_seek_from_compare() {
    assert_eq!(IoError::NotFound, IoError::NotFound);
    assert_ne!(IoError::NotFound, IoError::TimedOut);
    assert_eq!(SeekFrom::Start(4), SeekFrom::Start(4));
    assert_ne!(SeekFrom::Current(-1), SeekFrom::End(-1));
}

#[test]
fn take_read_respects_limit() {
    let reader = SliceReader { data: vec![1, 2, 3, 4, 5], pos: 0 };
    let mut t = Take::new(reader, 3);
    let mut buf = vec![0u8; 10];
    assert_eq!(t.read(&mut buf), Ok(3));
    assert_eq!(&buf[..3], &[1, 2, 3]);
    assert_eq!(t.limit(), 0);
    assert_eq!(t.read(&mut buf), Ok(0));
}

#[test]
fn chain_read_runs_both_readers() {
    let a = SliceReader { data: vec![1, 2], pos: 0 };
    let b = SliceReader { data: vec![3, 4], pos: 0 };
    let mut c = Chain::new(a, b);
    let mut buf = vec![0u8; 8];
    assert_eq!(c.read(&mut buf), Ok(2));
    assert_eq!(&buf[..2], &[1, 2]);
    assert_eq!(c.read(&mut buf), Ok(2));
    assert_eq!(&buf[..2], &[3, 4]);
    assert_eq!(c.read(&mut buf), Ok(0));
}

#[test]
fn read_one_byte_pulls_single_bytes_until_eof() {
    let mut r = SliceReader { data: vec![9, 8], pos: 0 };
    assert_eq!(read_one_byte(&mut r), Ok(9));
    assert_eq!(read_one_byte(&mut r), Ok(8));
    assert_eq!(read_one_byte(&mut r), Err(IoError::UnexpectedEof));
}
