use mone::options::{Opt, ReaderType, WriterType};

#[test]
fn default_options() {
    let o = Opt::default();
    assert_eq!(o.reader, ReaderType::Libc);
    assert_eq!(o.writer, WriterType::Tui);
    assert_eq!(o.n, 180);
}

