//! The fault-tolerant raw-dump renderer.
//!
//! A dump's report is the top-level header followed by each recoverable
//! section in one fixed order.  Four foundation streams (system info, the
//! two memory lists, miscellaneous info) are loaded up front because later
//! sections take them as context.  A section whose stream is absent is
//! skipped silently; a corrupt crash-reporter-metadata stream leaves a
//! fixed placeholder line instead of aborting; a fixed list of raw OS
//! text streams is rendered verbatim, each NUL-separated segment becoming
//! one logical line.  Only a failure of the output writer could abort a
//! render, and the writer here is an in-memory buffer that accepts every
//! write, so a render always succeeds.

use vstd::prelude::*;

use crate::dump::{
    fetch_assertion, fetch_breakpad_info, fetch_crashpad_info, fetch_exception,
    fetch_memory64_list, fetch_memory_info_list, fetch_memory_list, fetch_misc_info,
    fetch_module_list, fetch_raw_stream, fetch_system_info, fetch_thread_list,
    fetch_thread_names, fetch_unloaded_module_list, print_assertion, print_breakpad_info,
    print_crashpad_info, print_dump_header, print_exception, print_memory64_list,
    print_memory_info_list, print_memory_list, print_misc_info, print_module_list,
    print_system_info, print_thread_list, print_thread_names, print_unloaded_module_list,
    unify_memory, CrashpadFetch,
};
use crate::errors::{compose_dump_error, contains_seq, read_error_marker};

verus! {

/// Stream type tag of the Linux command-line raw stream.
pub const LINUX_CMD_LINE: u32 = 0x47670006;

/// Stream type tag of the Linux environment-block raw stream.
pub const LINUX_ENVIRON: u32 = 0x47670007;

/// Stream type tag of the Linux OS-release raw stream.
pub const LINUX_LSB_RELEASE: u32 = 0x47670005;

/// Stream type tag of the Linux process-status raw stream.
pub const LINUX_PROC_STATUS: u32 = 0x47670004;

/// Stream type tag of the Linux CPU-info raw stream.
pub const LINUX_CPU_INFO: u32 = 0x47670003;

/// Stream type tag of the Linux memory-map raw stream.
pub const LINUX_MAPS: u32 = 0x47670009;

/// What `String::from_utf8_lossy` decodes the given bytes to.  The
/// result is a function of the bytes alone.
pub uninterp spec fn lossy_of(bytes: Seq<u8>) -> Seq<char>;

/// Relies on String::from_utf8_lossy: decodes bytes as UTF-8, replacing
/// ill-formed sequences; all-ASCII bytes decode to exactly their
/// characters.
#[verifier::external_body]
fn lossy_string(bytes: &[u8]) -> (r: String)
    ensures
        r@ == lossy_of(bytes@),
        (forall|i: int| 0 <= i < bytes@.len() ==> bytes@[i] < 128) ==> r@ == Seq::new(
            bytes@.len(),
            |i: int| bytes@[i] as char,
        ),
{
    String::from_utf8_lossy(bytes).into_owned()
}

/// Decodes bytes as the raw-stream renderer does.  The decoding is a
/// function of the bytes alone, and bytes that are all ASCII decode to
/// exactly their characters.
pub fn decode_lossy(bytes: &[u8]) -> (r: String)
    ensures
        r@ == lossy_of(bytes@),
        (forall|i: int| 0 <= i < bytes@.len() ==> bytes@[i] < 128) ==> r@ == Seq::new(
            bytes@.len(),
            |i: int| bytes@[i] as char,
        ),
{
    lossy_string(bytes)
}

/// Accumulating split: walks `bytes`, growing the current segment until
/// a NUL closes it.  The segments before and the segment being grown are
/// carried along.
pub open spec fn spec_split_nul_rec(bytes: Seq<u8>, cur: Seq<u8>, acc: Seq<Seq<u8>>) -> Seq<
    Seq<u8>,
>
    decreases bytes.len(),
{
    if bytes.len() == 0 {
        acc.push(cur)
    } else if bytes[0] == 0 {
        spec_split_nul_rec(bytes.skip(1), Seq::empty(), acc.push(cur))
    } else {
        spec_split_nul_rec(bytes.skip(1), cur.push(bytes[0]), acc)
    }
}

/// The segments of `bytes` between NUL separators.  A NUL at the end
/// closes a final empty segment; there is always at least one segment.
pub open spec fn split_nul(bytes: Seq<u8>) -> Seq<Seq<u8>> {
    spec_split_nul_rec(bytes, Seq::empty(), Seq::empty())
}

/// The marker joining two decoded segments: an escaped NUL, then a
/// newline.
pub open spec fn segment_separator() -> Seq<char> {
    "\\0\n"@
}

/// The decoded segments joined with the segment separator.
pub open spec fn join_lossy(parts: Seq<Seq<u8>>) -> Seq<char>
    decreases parts.len(),
{
    if parts.len() == 0 {
        Seq::empty()
    } else if parts.len() == 1 {
        lossy_of(parts[0])
    } else {
        join_lossy(parts.drop_last()) + segment_separator() + lossy_of(parts.last())
    }
}

/// One raw OS text stream's block in the report: a header line naming
/// the stream, the joined segments, then a blank line.
pub open spec fn spec_raw_block(name: Seq<char>, bytes: Seq<u8>) -> Seq<char> {
    "Stream "@ + name + ":\n"@ + join_lossy(split_nul(bytes)) + "\n\n"@
}

/// Splits `bytes` into its NUL-separated segments.
pub fn split_nul_segments(bytes: &[u8]) -> (r: Vec<Vec<u8>>)
    ensures
        r.deep_view() == split_nul(bytes@),
        r.deep_view().len() >= 1,
{
    let mut acc: Vec<Vec<u8>> = Vec::new();
    let mut cur: Vec<u8> = Vec::new();
    let mut i: usize = 0;
    proof {
        assert(bytes@.skip(0) =~= bytes@);
        assert(acc.deep_view() =~= Seq::<Seq<u8>>::empty());
        assert(cur@ =~= Seq::<u8>::empty());
    }
    while i < bytes.len()
        invariant
            i <= bytes@.len(),
            spec_split_nul_rec(bytes@.skip(i as int), cur@, acc.deep_view()) == split_nul(bytes@),
        decreases bytes@.len() - i,
    {
        let ghost rest = bytes@.skip(i as int);
        let ghost old_acc = acc.deep_view();
        let ghost old_cur = cur@;
        let b = bytes[i];
        proof {
            assert(rest[0] == bytes@[i as int]);
            assert(rest.skip(1) =~= bytes@.skip(i + 1));
        }
        if b == 0 {
            acc.push(cur);
            cur = Vec::new();
            proof {
                assert(acc.deep_view() =~~= old_acc.push(old_cur));
                assert(cur@ =~= Seq::<u8>::empty());
            }
        } else {
            cur.push(b);
            proof {
                assert(cur@ =~= old_cur.push(b));
            }
        }
        i += 1;
    }
    proof {
        assert(bytes@.skip(i as int) =~= Seq::<u8>::empty());
    }
    let ghost old_acc = acc.deep_view();
    let ghost old_cur = cur@;
    acc.push(cur);
    proof {
        assert(acc.deep_view() =~~= old_acc.push(old_cur));
    }
    acc
}

/// The segments of a prefix grow one segment at a time: joining one more
/// segment appends the separator (past the first) and its decoding.
proof fn lemma_join_take_step(parts: Seq<Seq<u8>>, k: int)
    requires
        0 <= k < parts.len(),
    ensures
        k == 0 ==> join_lossy(parts.take(1)) == lossy_of(parts[0]),
        k > 0 ==> join_lossy(parts.take(k + 1)) == join_lossy(parts.take(k)) + segment_separator()
            + lossy_of(parts[k]),
{
    let p = parts.take(k + 1);
    assert(p.len() == k + 1);
    if k == 0 {
        assert(p[0] == parts[0]);
    } else {
        assert(p.drop_last() =~= parts.take(k));
        assert(p.last() == parts[k]);
    }
}

/// Renders one raw OS text stream verbatim: splits its bytes on NUL,
/// decodes each segment, joins them with the escaped-NUL marker, and
/// frames the block with the stream's name and a trailing blank line.
pub fn render_raw_block(name: &str, bytes: &[u8]) -> (r: String)
    ensures
        r@ == spec_raw_block(name@, bytes@),
{
    let parts = split_nul_segments(bytes);
    let mut body = String::new();
    let mut k: usize = 0;
    proof {
        assert(split_nul(bytes@).take(0) =~= Seq::<Seq<u8>>::empty());
    }
    while k < parts.len()
        invariant
            k <= parts@.len(),
            parts.deep_view() == split_nul(bytes@),
            parts.deep_view().len() >= 1,
            body@ == join_lossy(parts.deep_view().take(k as int)),
        decreases parts@.len() - k,
    {
        proof {
            lemma_join_take_step(parts.deep_view(), k as int);
            assert(parts.deep_view()[k as int] == parts@[k as int]@);
        }
        if k > 0 {
            body.append("\\0\n");
        }
        let piece = lossy_string(parts[k].as_slice());
        body.append(piece.as_str());
        k += 1;
    }
    proof {
        assert(parts.deep_view().take(parts@.len() as int) =~= parts.deep_view());
    }
    let mut r = String::new();
    r.append("Stream ");
    r.append(name);
    r.append(":\n");
    r.append(body.as_str());
    r.append("\n\n");
    r
}

/// The crash-reporter-metadata section of a report: absent streams leave
/// nothing, a readable stream leaves its rendering, a corrupt one leaves
/// a fixed placeholder.
pub enum CrashpadSection {
    Absent,
    Rendered(String),
    Unprintable,
}

/// One raw OS text stream as found in the dump: the stream's name and
/// its bytes.
pub struct RawTextStream {
    pub name: String,
    pub contents: Vec<u8>,
}

/// Every per-section outcome of one render pass, in the order the
/// sections appear in the report.  A `None` means the section's stream
/// was absent (or unreadable, for all but the crash-reporter stream) and
/// leaves nothing in the report.
pub struct Sections {
    pub thread_list: Option<String>,
    pub module_list: Option<String>,
    pub unloaded_module_list: Option<String>,
    pub memory_list: Option<String>,
    pub memory64_list: Option<String>,
    pub memory_info_list: Option<String>,
    pub exception: Option<String>,
    pub assertion: Option<String>,
    pub system_info: Option<String>,
    pub misc_info: Option<String>,
    pub breakpad_info: Option<String>,
    pub thread_names: Option<String>,
    pub crashpad: CrashpadSection,
    pub raw_streams: Vec<RawTextStream>,
}

/// The placeholder line left in place of a crash-reporter-metadata
/// stream that is present but cannot be printed.
pub open spec fn crashpad_placeholder() -> Seq<char> {
    "MinidumpCrashpadInfo cannot print invalid data\n"@
}

/// What an optional section leaves in the report: its text, or nothing.
pub open spec fn opt_text(o: Option<String>) -> Seq<char> {
    match o {
        Some(s) => s@,
        None => Seq::empty(),
    }
}

/// What the crash-reporter-metadata section leaves in the report.
pub open spec fn crashpad_text(c: CrashpadSection) -> Seq<char> {
    match c {
        CrashpadSection::Absent => Seq::empty(),
        CrashpadSection::Rendered(s) => s@,
        CrashpadSection::Unprintable => crashpad_placeholder(),
    }
}

/// The raw OS text stream blocks, in order.
pub open spec fn raw_blocks(streams: Seq<RawTextStream>) -> Seq<char>
    decreases streams.len(),
{
    if streams.len() == 0 {
        Seq::empty()
    } else {
        raw_blocks(streams.drop_last()) + spec_raw_block(
            streams.last().name@,
            streams.last().contents@,
        )
    }
}

/// The optional sections' text in report order, then the
/// crash-reporter-metadata section.
pub open spec fn sections_text(s: Sections) -> Seq<char> {
    opt_text(s.thread_list) + opt_text(s.module_list) + opt_text(s.unloaded_module_list)
        + opt_text(s.memory_list) + opt_text(s.memory64_list) + opt_text(s.memory_info_list)
        + opt_text(s.exception) + opt_text(s.assertion) + opt_text(s.system_info) + opt_text(
        s.misc_info,
    ) + opt_text(s.breakpad_info) + opt_text(s.thread_names) + crashpad_text(s.crashpad)
}

/// The whole report: the header, every section in order, then the raw
/// OS text stream blocks.
pub open spec fn report_text(header: Seq<char>, s: Sections) -> Seq<char> {
    header + sections_text(s) + raw_blocks(s.raw_streams@)
}

/// Appends an optional section's text, or nothing.
fn append_opt(r: &mut String, o: &Option<String>)
    ensures
        final(r)@ == old(r)@ + opt_text(*o),
{
    match o {
        Some(t) => r.append(t.as_str()),
        None => (),
    }
}

/// Appends the crash-reporter-metadata section's text.
fn append_crashpad(r: &mut String, c: &CrashpadSection)
    ensures
        final(r)@ == old(r)@ + crashpad_text(*c),
{
    match c {
        CrashpadSection::Absent => (),
        CrashpadSection::Rendered(t) => r.append(t.as_str()),
        CrashpadSection::Unprintable => r.append(
            "MinidumpCrashpadInfo cannot print invalid data\n",
        ),
    }
}

/// The raw blocks of a prefix grow one block at a time.
proof fn lemma_raw_take_step(streams: Seq<RawTextStream>, k: int)
    requires
        0 <= k < streams.len(),
    ensures
        raw_blocks(streams.take(k + 1)) == raw_blocks(streams.take(k)) + spec_raw_block(
            streams[k].name@,
            streams[k].contents@,
        ),
{
    let p = streams.take(k + 1);
    assert(p.drop_last() =~= streams.take(k));
    assert(p.last() == streams[k]);
}

/// Concatenates the header and every gathered section into the one
/// report string, in the fixed order.
#[verifier::rlimit(100)]
pub fn assemble_report(header: String, s: &Sections) -> (r: String)
    ensures
        r@ == report_text(header@, *s),
{
    let ghost h = header@;
    let mut r = header;
    append_opt(&mut r, &s.thread_list);
    append_opt(&mut r, &s.module_list);
    append_opt(&mut r, &s.unloaded_module_list);
    append_opt(&mut r, &s.memory_list);
    append_opt(&mut r, &s.memory64_list);
    append_opt(&mut r, &s.memory_info_list);
    append_opt(&mut r, &s.exception);
    append_opt(&mut r, &s.assertion);
    append_opt(&mut r, &s.system_info);
    append_opt(&mut r, &s.misc_info);
    append_opt(&mut r, &s.breakpad_info);
    append_opt(&mut r, &s.thread_names);
    append_crashpad(&mut r, &s.crashpad);
    proof {
        assert(r@ =~= h + sections_text(*s));
    }
    let ghost base = r@;
    let mut k: usize = 0;
    proof {
        assert(s.raw_streams@.take(0) =~= Seq::<RawTextStream>::empty());
    }
    while k < s.raw_streams.len()
        invariant
            k <= s.raw_streams@.len(),
            r@ == base + raw_blocks(s.raw_streams@.take(k as int)),
            base == h + sections_text(*s),
        decreases s.raw_streams@.len() - k,
    {
        proof {
            lemma_raw_take_step(s.raw_streams@, k as int);
        }
        let block = render_raw_block(
            s.raw_streams[k].name.as_str(),
            s.raw_streams[k].contents.as_slice(),
        );
        r.append(block.as_str());
        proof {
            assert(r@ =~= base + raw_blocks(s.raw_streams@.take(k + 1)));
        }
        k += 1;
    }
    proof {
        assert(s.raw_streams@.take(s.raw_streams@.len() as int) =~= s.raw_streams@);
        assert(r@ =~= report_text(h, *s));
    }
    r
}

/// Whatever the sections hold, the assembled report begins with the
/// header: a render never loses or reorders it.
pub proof fn lemma_report_starts_with_header(header: Seq<char>, s: Sections)
    ensures
        report_text(header, s).len() >= header.len(),
        report_text(header, s).subrange(0, header.len() as int) == header,
{
    assert(report_text(header, s).subrange(0, header.len() as int) =~= header);
}

/// A dump with no recoverable sections at all still renders: the report
/// is exactly the header, so it is non-empty whenever the header is.
pub proof fn lemma_report_with_no_sections_is_header(header: Seq<char>, s: Sections)
    requires
        s.thread_list is None,
        s.module_list is None,
        s.unloaded_module_list is None,
        s.memory_list is None,
        s.memory64_list is None,
        s.memory_info_list is None,
        s.exception is None,
        s.assertion is None,
        s.system_info is None,
        s.misc_info is None,
        s.breakpad_info is None,
        s.thread_names is None,
        s.crashpad is Absent,
        s.raw_streams@.len() == 0,
    ensures
        report_text(header, s) == header,
        header.len() > 0 ==> report_text(header, s).len() > 0,
{
    assert(report_text(header, s) =~= header);
}

/// `m` occurs in `a + m + b`, wherever the two sides came from.
pub proof fn lemma_contains_middle(a: Seq<char>, m: Seq<char>, b: Seq<char>)
    ensures
        contains_seq(a + m + b, m),
{
    let s = a + m + b;
    let i = a.len() as int;
    assert(s.subrange(i, i + m.len() as int) =~= m);
}

/// A present-but-unprintable crash-reporter-metadata stream never aborts
/// a render: the report simply carries the fixed placeholder line, with
/// every other section rendered around it.
#[verifier::rlimit(100)]
pub proof fn lemma_unprintable_crashpad_leaves_placeholder(header: Seq<char>, s: Sections)
    requires
        s.crashpad is Unprintable,
    ensures
        contains_seq(report_text(header, s), crashpad_placeholder()),
{
    let a = header + opt_text(s.thread_list) + opt_text(s.module_list) + opt_text(
        s.unloaded_module_list,
    ) + opt_text(s.memory_list) + opt_text(s.memory64_list) + opt_text(s.memory_info_list)
        + opt_text(s.exception) + opt_text(s.assertion) + opt_text(s.system_info) + opt_text(
        s.misc_info,
    ) + opt_text(s.breakpad_info) + opt_text(s.thread_names);
    let b = raw_blocks(s.raw_streams@);
    assert(report_text(header, s) =~= a + crashpad_placeholder() + b);
    lemma_contains_middle(a, crashpad_placeholder(), b);
}

/// Assembly is a function of the gathered sections alone: two reports
/// assembled from the same header and sections are identical.
pub proof fn lemma_assembly_deterministic(
    h1: Seq<char>,
    h2: Seq<char>,
    s1: Sections,
    s2: Sections,
    r1: Seq<char>,
    r2: Seq<char>,
)
    requires
        h1 == h2,
        s1 == s2,
        r1 == report_text(h1, s1),
        r2 == report_text(h2, s2),
    ensures
        r1 == r2,
{
}

/// One of the six names a raw OS text stream block can carry.
pub open spec fn is_raw_stream_name(n: Seq<char>) -> bool {
    ||| n == "LinuxCmdLine"@
    ||| n == "LinuxEnviron"@
    ||| n == "LinuxLsbRelease"@
    ||| n == "LinuxProcStatus"@
    ||| n == "LinuxCpuInfo"@
    ||| n == "LinuxMaps"@
}

/// The position of a raw stream's name in the fixed rendering order.
pub open spec fn raw_name_rank(n: Seq<char>) -> int {
    if n == "LinuxCmdLine"@ {
        0
    } else if n == "LinuxEnviron"@ {
        1
    } else if n == "LinuxLsbRelease"@ {
        2
    } else if n == "LinuxProcStatus"@ {
        3
    } else if n == "LinuxCpuInfo"@ {
        4
    } else {
        5
    }
}

/// The raw stream blocks keep the fixed order: names appear with
/// strictly increasing rank, so each stream appears at most once and
/// never out of place.
pub open spec fn raw_names_ordered(streams: Seq<RawTextStream>) -> bool {
    forall|j: int, k: int|
        0 <= j < k < streams.len() ==> raw_name_rank(#[trigger] streams[j].name@) < raw_name_rank(
            #[trigger] streams[k].name@,
        )
}

/// The six raw stream names are pairwise distinct, so each takes its
/// own place in the fixed order.
proof fn lemma_raw_name_ranks()
    ensures
        raw_name_rank("LinuxCmdLine"@) == 0,
        raw_name_rank("LinuxEnviron"@) == 1,
        raw_name_rank("LinuxLsbRelease"@) == 2,
        raw_name_rank("LinuxProcStatus"@) == 3,
        raw_name_rank("LinuxCpuInfo"@) == 4,
        raw_name_rank("LinuxMaps"@) == 5,
{
    reveal_strlit("LinuxCmdLine");
    reveal_strlit("LinuxEnviron");
    reveal_strlit("LinuxLsbRelease");
    reveal_strlit("LinuxProcStatus");
    reveal_strlit("LinuxCpuInfo");
    reveal_strlit("LinuxMaps");
    assert("LinuxCmdLine"@.len() == 12);
    assert("LinuxEnviron"@.len() == 12);
    assert("LinuxLsbRelease"@.len() == 15);
    assert("LinuxProcStatus"@.len() == 15);
    assert("LinuxCpuInfo"@.len() == 12);
    assert("LinuxMaps"@.len() == 9);
    assert("LinuxCmdLine"@.index(5) == 'C');
    assert("LinuxEnviron"@.index(5) == 'E');
    assert("LinuxCpuInfo"@.index(5) == 'C');
    assert("LinuxLsbRelease"@.index(5) == 'L');
    assert("LinuxProcStatus"@.index(5) == 'P');
    assert("LinuxCmdLine"@.index(6) == 'm');
    assert("LinuxCpuInfo"@.index(6) == 'p');
}

/// Appends the raw stream with the given type tag and name, when the
/// dump carries it.
fn gather_raw_stream<'a, T>(
    d: &'a minidump::Minidump<'a, T>,
    streams: &mut Vec<RawTextStream>,
    stream_type: u32,
    name: &str,
)
    where T: core::ops::Deref<Target = [u8]> + 'a,

    requires
        forall|j: int|
            0 <= j < old(streams)@.len() ==> is_raw_stream_name(
                #[trigger] old(streams)@[j].name@,
            ),
        is_raw_stream_name(name@),
        raw_names_ordered(old(streams)@),
        forall|j: int|
            0 <= j < old(streams)@.len() ==> raw_name_rank(
                #[trigger] old(streams)@[j].name@,
            ) < raw_name_rank(name@),
    ensures
        forall|j: int|
            0 <= j < final(streams)@.len() ==> is_raw_stream_name(
                #[trigger] final(streams)@[j].name@,
            ),
        old(streams)@.len() <= final(streams)@.len() <= old(streams)@.len() + 1,
        forall|j: int|
            0 <= j < old(streams)@.len() ==> #[trigger] final(streams)@[j] == old(streams)@[j],
        final(streams)@.len() > old(streams)@.len() ==> final(streams)@.last().name@ == name@,
        raw_names_ordered(final(streams)@),
        forall|j: int|
            0 <= j < final(streams)@.len() ==> raw_name_rank(
                #[trigger] final(streams)@[j].name@,
            ) <= raw_name_rank(name@),
{
    match fetch_raw_stream(d, stream_type) {
        Some(contents) => {
            streams.push(RawTextStream { name: name.to_owned(), contents });
            proof {
                let s = streams@;
                let n = s.len() as int;
                assert(s[n - 1].name@ == name@);
                assert forall|j: int, k: int| 0 <= j < k < n implies raw_name_rank(
                    s[j].name@,
                ) < raw_name_rank(s[k].name@) by {
                    if k == n - 1 {
                        assert(s[j] == old(streams)@[j]);
                        assert(raw_name_rank(old(streams)@[j].name@) < raw_name_rank(name@));
                    } else {
                        assert(s[j] == old(streams)@[j]);
                        assert(s[k] == old(streams)@[k]);
                        assert(raw_name_rank(old(streams)@[j].name@) < raw_name_rank(
                            old(streams)@[k].name@,
                        ));
                    }
                };
            }
        },
        None => (),
    }
}

/// Classifies the crash-reporter-metadata fetch outcome into its
/// section: a found stream is rendered, an absent one leaves nothing,
/// and a present-but-unreadable one leaves the fixed placeholder line
/// instead of failing.
pub fn crashpad_section_of(f: CrashpadFetch) -> (c: CrashpadSection)
    ensures
        f is Found ==> c is Rendered,
        f is Absent ==> c is Absent,
        f is Invalid ==> c is Unprintable,
{
    match f {
        CrashpadFetch::Found(info) => {
            match print_crashpad_info(&info) {
                Ok(txt) => CrashpadSection::Rendered(txt),
                // the printer's writer is in-memory and cannot fail
                Err(_) => CrashpadSection::Unprintable,
            }
        },
        CrashpadFetch::Absent => CrashpadSection::Absent,
        CrashpadFetch::Invalid => CrashpadSection::Unprintable,
    }
}

/// Loads and renders every recoverable section of the dump, in report
/// order.  The four foundation streams are fetched first and handed to
/// the sections that need them as context; a section whose stream is
/// absent is recorded as such and skipped; a corrupt
/// crash-reporter-metadata stream is recorded as unprintable.  Gathering
/// always succeeds: absence is never fatal, and every section printer
/// writes into an in-memory buffer.
pub fn render_sections<'a, T>(d: &'a minidump::Minidump<'a, T>, brief: bool) -> (r: Result<
    Sections,
    String,
>)
    where T: core::ops::Deref<Target = [u8]> + 'a,

    ensures
        r is Ok,
        r matches Ok(s) ==> forall|j: int|
            0 <= j < s.raw_streams@.len() ==> is_raw_stream_name(#[trigger] s.raw_streams@[j].name@),
        r matches Ok(s) ==> s.raw_streams@.len() <= 6,
        r matches Ok(s) ==> raw_names_ordered(s.raw_streams@),
{
    let system_info = fetch_system_info(d);
    let memory_list = fetch_memory_list(d);
    let memory64_list = fetch_memory64_list(d);
    let misc_info = fetch_misc_info(d);
    // The thread printer takes the memory regions through a unified view,
    // built here from a second read of the 32-bit list.
    let unified = match fetch_memory_list(d) {
        Some(m) => Some(unify_memory(m)),
        None => None,
    };
    let thread_list = match fetch_thread_list(d) {
        Some(t) => {
            match print_thread_list(
                &t,
                unified.as_ref(),
                system_info.as_ref(),
                misc_info.as_ref(),
                brief,
            ) {
                Ok(txt) => Some(txt),
                Err(e) => {
                    return Err(e);
                },
            }
        },
        None => None,
    };
    let module_list = match fetch_module_list(d) {
        Some(m) => {
            match print_module_list(&m) {
                Ok(txt) => Some(txt),
                Err(e) => {
                    return Err(e);
                },
            }
        },
        None => None,
    };
    let unloaded_module_list = match fetch_unloaded_module_list(d) {
        Some(m) => {
            match print_unloaded_module_list(&m) {
                Ok(txt) => Some(txt),
                Err(e) => {
                    return Err(e);
                },
            }
        },
        None => None,
    };
    let memory_list_text = match &memory_list {
        Some(m) => {
            match print_memory_list(m, brief) {
                Ok(txt) => Some(txt),
                Err(e) => {
                    return Err(e);
                },
            }
        },
        None => None,
    };
    let memory64_list_text = match &memory64_list {
        Some(m) => {
            match print_memory64_list(m, brief) {
                Ok(txt) => Some(txt),
                Err(e) => {
                    return Err(e);
                },
            }
        },
        None => None,
    };
    let memory_info_list = match fetch_memory_info_list(d) {
        Some(m) => {
            match print_memory_info_list(&m) {
                Ok(txt) => Some(txt),
                Err(e) => {
                    return Err(e);
                },
            }
        },
        None => None,
    };
    let exception = match fetch_exception(d) {
        Some(e) => {
            match print_exception(&e, system_info.as_ref(), misc_info.as_ref()) {
                Ok(txt) => Some(txt),
                Err(err) => {
                    return Err(err);
                },
            }
        },
        None => None,
    };
    let assertion = match fetch_assertion(d) {
        Some(a) => {
            match print_assertion(&a) {
                Ok(txt) => Some(txt),
                Err(e) => {
                    return Err(e);
                },
            }
        },
        None => None,
    };
    let system_info_text = match &system_info {
        Some(si) => {
            match print_system_info(si) {
                Ok(txt) => Some(txt),
                Err(e) => {
                    return Err(e);
                },
            }
        },
        None => None,
    };
    let misc_info_text = match &misc_info {
        Some(mi) => {
            match print_misc_info(mi) {
                Ok(txt) => Some(txt),
                Err(e) => {
                    return Err(e);
                },
            }
        },
        None => None,
    };
    let breakpad_info = match fetch_breakpad_info(d) {
        Some(b) => {
            match print_breakpad_info(&b) {
                Ok(txt) => Some(txt),
                Err(e) => {
                    return Err(e);
                },
            }
        },
        None => None,
    };
    let thread_names = match fetch_thread_names(d) {
        Some(t) => {
            match print_thread_names(&t) {
                Ok(txt) => Some(txt),
                Err(e) => {
                    return Err(e);
                },
            }
        },
        None => None,
    };
    let crashpad = crashpad_section_of(fetch_crashpad_info(d));
    let mut raw_streams: Vec<RawTextStream> = Vec::new();
    proof {
        lemma_raw_name_ranks();
    }
    gather_raw_stream(d, &mut raw_streams, LINUX_CMD_LINE, "LinuxCmdLine");
    gather_raw_stream(d, &mut raw_streams, LINUX_ENVIRON, "LinuxEnviron");
    gather_raw_stream(d, &mut raw_streams, LINUX_LSB_RELEASE, "LinuxLsbRelease");
    gather_raw_stream(d, &mut raw_streams, LINUX_PROC_STATUS, "LinuxProcStatus");
    gather_raw_stream(d, &mut raw_streams, LINUX_CPU_INFO, "LinuxCpuInfo");
    gather_raw_stream(d, &mut raw_streams, LINUX_MAPS, "LinuxMaps");
    Ok(
        Sections {
            thread_list,
            module_list,
            unloaded_module_list,
            memory_list: memory_list_text,
            memory64_list: memory64_list_text,
            memory_info_list,
            exception,
            assertion,
            system_info: system_info_text,
            misc_info: misc_info_text,
            breakpad_info,
            thread_names,
            crashpad,
            raw_streams,
        },
    )
}

/// Renders the whole dump: header first, then every recoverable
/// section, assembled in the fixed order by `assemble_report`, whose
/// contract pins the assembly exactly.  Rendering always succeeds: the
/// sections that exist are gathered, the rest are skipped, and every
/// printer writes into an in-memory buffer.
pub fn render_dump<'a, T>(d: &'a minidump::Minidump<'a, T>, brief: bool) -> (r: Result<
    String,
    String,
>)
    where T: core::ops::Deref<Target = [u8]> + 'a,

    ensures
        r is Ok,
{
    let header = match print_dump_header(d) {
        Ok(h) => h,
        Err(e) => {
            return Err(e);
        },
    };
    let sections = match render_sections(d, brief) {
        Ok(s) => s,
        Err(e) => {
            return Err(e);
        },
    };
    Ok(assemble_report(header, &sections))
}

/// The raw-dump operation on a dump file at `path`: the report text, or
/// one composed failure message.  The render itself always succeeds, so
/// every failure is a read error — the file could not be opened as a
/// minidump — and its message carries the read marker.
pub fn dump_path_report(path: &str, brief: bool) -> (r: Result<String, String>)
    ensures
        r matches Err(msg) ==> contains_seq(msg@, read_error_marker()),
{
    match crate::dump::open_dump(path) {
        Ok(d) => match render_dump(&d, brief) {
            Ok(t) => Ok(t),
            Err(e) => Err(compose_dump_error(e.as_str())),
        },
        Err(m) => Err(m),
    }
}

/// The raw-dump operation on an in-memory minidump image, failing
/// exactly as `dump_path_report` does.
pub fn dump_bytes_report(bytes: Vec<u8>, brief: bool) -> (r: Result<String, String>)
    ensures
        r matches Err(msg) ==> contains_seq(msg@, read_error_marker()),
{
    match crate::dump::open_dump_bytes(bytes) {
        Ok(d) => match render_dump(&d, brief) {
            Ok(t) => Ok(t),
            Err(e) => Err(compose_dump_error(e.as_str())),
        },
        Err(m) => Err(m),
    }
}

} // verus!
