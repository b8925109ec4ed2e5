use kern::atags::Atag;
use kern::atags::Core;
use kern::atags::Mem;

#[test]
fn core_tag_extraction() {
    let c = Core { flags: 1, pagesize: 4096, rootdev: 0 };
    assert_eq!(Atag::Core(c).core_tag(), Some(c));
    assert_eq!(Atag::Unknown(9).core_tag(), None);
    assert_eq!(Atag::End.core_tag(), None);
}

#[test]
fn mem_tag_extraction() {
    let m = Mem { size: 0x2000_0000, start: 0 };
    assert_eq!(Atag::Mem(m).mem(), Some(m));
    assert_eq!(Atag::Core(Core { flags: 0, pagesize: 0, rootdev: 0 }).mem(), None);
}

#[test]
fn cmd_tag_extraction() {
    let t = Atag::Cmd(String::from("console=ttyS0"));
    assert_eq!(t.cmd(), Some(String::from("console=ttyS0")));
    assert_eq!(Atag::Mem(Mem { size: 1, start: 2 }).cmd(), None);
}
