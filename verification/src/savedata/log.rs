//! Chat log files (`.LOG`): the messages a client recorded.
use vstd::prelude::*;
use crate::bytes::{read_u32_le, u32_le};
use crate::text::{lossy_text, text_from_bytes_lossy};

verus! {

/// The filter of a chat log event.
#[derive(Debug, Clone, Copy, PartialEq, Eq, Structural)]
pub enum EventFilter {
    /// System messages.
    SystemMessages,
    /// Not known.
    Unknown,
    /// Progression messages.
    ProgressionMessage,
    /// Battle messages of NPCs.
    NPCBattle,
    /// Not known.
    Unknown2,
    /// Not known.
    Unknown7,
    /// Not known.
    Unknown3,
    /// Battle messages of enemies.
    EnemyBattle,
    /// Not known.
    Unknown4,
    /// Not known.
    Unknown8,
    /// Not known.
    Unknown9,
    /// Not known.
    Unknown10,
    /// Not known.
    Unknown11,
    /// Not known.
    Unknown12,
    /// Not known.
    Unknown13,
    /// Not known.
    Unknown14,
    /// Not known.
    Unknown15,
    /// Not known.
    Unknown16,
    /// Not known.
    Unknown17,
    /// Not known.
    Unknown18,
    /// Not known.
    Unknown19,
    /// Not known.
    Unknown20,
    /// Not known.
    Unknown21,
    /// Not known.
    Unknown22,
    /// Not known.
    Unknown23,
    /// Not known.
    Unknown24,
    /// Not known.
    Unknown25,
    /// Not known.
    Unknown26,
    /// Not known.
    Unknown27,
    /// Not known.
    Unknown28,
    /// Not known.
    Unknown29,
}

/// The channel of a chat log event.
#[derive(Debug, Clone, Copy, PartialEq, Eq, Structural)]
pub enum EventChannel {
    /// The system.
    System,
    /// Not known.
    Unknown8,
    /// Announcements of the server.
    ServerAnnouncement,
    /// Not known.
    Unknown9,
    /// Not known.
    Unknown1,
    /// Not known.
    Unknown7,
    /// Other players.
    Others,
    /// Not known.
    Unknown5,
    /// Enemy NPCs.
    NPCEnemy,
    /// Friendly NPCs.
    NPCFriendly,
    /// Not known.
    Unknown4,
    /// Not known.
    Unknown6,
    /// Not known.
    Unknown10,
    /// Not known.
    Unknown11,
    /// Not known.
    Unknown12,
    /// Not known.
    Unknown13,
    /// Not known.
    Unknown14,
    /// Not known.
    Unknown15,
    /// Not known.
    Unknown16,
    /// Not known.
    Unknown17,
    /// Not known.
    Unknown18,
    /// Not known.
    Unknown19,
}

/// The number that stands for a value in a file.
pub open spec fn event_filter_number(v: EventFilter) -> u8 {
    match v {
        EventFilter::SystemMessages => 3,
        EventFilter::Unknown => 20,
        EventFilter::ProgressionMessage => 64,
        EventFilter::NPCBattle => 41,
        EventFilter::Unknown2 => 57,
        EventFilter::Unknown7 => 29,
        EventFilter::Unknown3 => 59,
        EventFilter::EnemyBattle => 170,
        EventFilter::Unknown4 => 69,
        EventFilter::Unknown8 => 43,
        EventFilter::Unknown9 => 60,
        EventFilter::Unknown10 => 61,
        EventFilter::Unknown11 => 62,
        EventFilter::Unknown12 => 58,
        EventFilter::Unknown13 => 169,
        EventFilter::Unknown14 => 175,
        EventFilter::Unknown15 => 42,
        EventFilter::Unknown16 => 171,
        EventFilter::Unknown17 => 177,
        EventFilter::Unknown18 => 174,
        EventFilter::Unknown19 => 47,
        EventFilter::Unknown20 => 176,
        EventFilter::Unknown21 => 44,
        EventFilter::Unknown22 => 173,
        EventFilter::Unknown23 => 46,
        EventFilter::Unknown24 => 10,
        EventFilter::Unknown25 => 185,
        EventFilter::Unknown26 => 190,
        EventFilter::Unknown27 => 11,
        EventFilter::Unknown28 => 70,
        EventFilter::Unknown29 => 105,
    }
}

/// The value that `n` stands for in a file, if any.
pub open spec fn event_filter_of(n: u8) -> Option<EventFilter> {
    if n == 3 { Some(EventFilter::SystemMessages) }
    else if n == 20 { Some(EventFilter::Unknown) }
    else if n == 64 { Some(EventFilter::ProgressionMessage) }
    else if n == 41 { Some(EventFilter::NPCBattle) }
    else if n == 57 { Some(EventFilter::Unknown2) }
    else if n == 29 { Some(EventFilter::Unknown7) }
    else if n == 59 { Some(EventFilter::Unknown3) }
    else if n == 170 { Some(EventFilter::EnemyBattle) }
    else if n == 69 { Some(EventFilter::Unknown4) }
    else if n == 43 { Some(EventFilter::Unknown8) }
    else if n == 60 { Some(EventFilter::Unknown9) }
    else if n == 61 { Some(EventFilter::Unknown10) }
    else if n == 62 { Some(EventFilter::Unknown11) }
    else if n == 58 { Some(EventFilter::Unknown12) }
    else if n == 169 { Some(EventFilter::Unknown13) }
    else if n == 175 { Some(EventFilter::Unknown14) }
    else if n == 42 { Some(EventFilter::Unknown15) }
    else if n == 171 { Some(EventFilter::Unknown16) }
    else if n == 177 { Some(EventFilter::Unknown17) }
    else if n == 174 { Some(EventFilter::Unknown18) }
    else if n == 47 { Some(EventFilter::Unknown19) }
    else if n == 176 { Some(EventFilter::Unknown20) }
    else if n == 44 { Some(EventFilter::Unknown21) }
    else if n == 173 { Some(EventFilter::Unknown22) }
    else if n == 46 { Some(EventFilter::Unknown23) }
    else if n == 10 { Some(EventFilter::Unknown24) }
    else if n == 185 { Some(EventFilter::Unknown25) }
    else if n == 190 { Some(EventFilter::Unknown26) }
    else if n == 11 { Some(EventFilter::Unknown27) }
    else if n == 70 { Some(EventFilter::Unknown28) }
    else if n == 105 { Some(EventFilter::Unknown29) }
    else { None }
}

impl EventFilter {
    /// The value that `n` stands for in a file, if any.
    pub fn from_number(n: u8) -> (r: Option<EventFilter>)
        ensures
            r == event_filter_of(n),
    {
        match n {
            3 => Some(EventFilter::SystemMessages),
            20 => Some(EventFilter::Unknown),
            64 => Some(EventFilter::ProgressionMessage),
            41 => Some(EventFilter::NPCBattle),
            57 => Some(EventFilter::Unknown2),
            29 => Some(EventFilter::Unknown7),
            59 => Some(EventFilter::Unknown3),
            170 => Some(EventFilter::EnemyBattle),
            69 => Some(EventFilter::Unknown4),
            43 => Some(EventFilter::Unknown8),
            60 => Some(EventFilter::Unknown9),
            61 => Some(EventFilter::Unknown10),
            62 => Some(EventFilter::Unknown11),
            58 => Some(EventFilter::Unknown12),
            169 => Some(EventFilter::Unknown13),
            175 => Some(EventFilter::Unknown14),
            42 => Some(EventFilter::Unknown15),
            171 => Some(EventFilter::Unknown16),
            177 => Some(EventFilter::Unknown17),
            174 => Some(EventFilter::Unknown18),
            47 => Some(EventFilter::Unknown19),
            176 => Some(EventFilter::Unknown20),
            44 => Some(EventFilter::Unknown21),
            173 => Some(EventFilter::Unknown22),
            46 => Some(EventFilter::Unknown23),
            10 => Some(EventFilter::Unknown24),
            185 => Some(EventFilter::Unknown25),
            190 => Some(EventFilter::Unknown26),
            11 => Some(EventFilter::Unknown27),
            70 => Some(EventFilter::Unknown28),
            105 => Some(EventFilter::Unknown29),
            _ => None,
        }
    }
}

/// The number that stands for a value in a file.
pub open spec fn event_channel_number(v: EventChannel) -> u8 {
    match v {
        EventChannel::System => 0,
        EventChannel::Unknown8 => 2,
        EventChannel::ServerAnnouncement => 3,
        EventChannel::Unknown9 => 8,
        EventChannel::Unknown1 => 50,
        EventChannel::Unknown7 => 29,
        EventChannel::Others => 32,
        EventChannel::Unknown5 => 41,
        EventChannel::NPCEnemy => 51,
        EventChannel::NPCFriendly => 59,
        EventChannel::Unknown4 => 64,
        EventChannel::Unknown6 => 170,
        EventChannel::Unknown10 => 10,
        EventChannel::Unknown11 => 66,
        EventChannel::Unknown12 => 44,
        EventChannel::Unknown13 => 40,
        EventChannel::Unknown14 => 42,
        EventChannel::Unknown15 => 11,
        EventChannel::Unknown16 => 67,
        EventChannel::Unknown17 => 68,
        EventChannel::Unknown18 => 34,
        EventChannel::Unknown19 => 110,
    }
}

/// Each event filter is read back from the number that stands for it, so no two share one.
pub proof fn law_event_filter_numbers(v: EventFilter)
    ensures
        event_filter_of(event_filter_number(v)) == Some(v),
{
}

/// The value that `n` stands for in a file, if any.
pub open spec fn event_channel_of(n: u8) -> Option<EventChannel> {
    if n == 0 { Some(EventChannel::System) }
    else if n == 2 { Some(EventChannel::Unknown8) }
    else if n == 3 { Some(EventChannel::ServerAnnouncement) }
    else if n == 8 { Some(EventChannel::Unknown9) }
    else if n == 50 { Some(EventChannel::Unknown1) }
    else if n == 29 { Some(EventChannel::Unknown7) }
    else if n == 32 { Some(EventChannel::Others) }
    else if n == 41 { Some(EventChannel::Unknown5) }
    else if n == 51 { Some(EventChannel::NPCEnemy) }
    else if n == 59 { Some(EventChannel::NPCFriendly) }
    else if n == 64 { Some(EventChannel::Unknown4) }
    else if n == 170 { Some(EventChannel::Unknown6) }
    else if n == 10 { Some(EventChannel::Unknown10) }
    else if n == 66 { Some(EventChannel::Unknown11) }
    else if n == 44 { Some(EventChannel::Unknown12) }
    else if n == 40 { Some(EventChannel::Unknown13) }
    else if n == 42 { Some(EventChannel::Unknown14) }
    else if n == 11 { Some(EventChannel::Unknown15) }
    else if n == 67 { Some(EventChannel::Unknown16) }
    else if n == 68 { Some(EventChannel::Unknown17) }
    else if n == 34 { Some(EventChannel::Unknown18) }
    else if n == 110 { Some(EventChannel::Unknown19) }
    else { None }
}

impl EventChannel {
    /// The value that `n` stands for in a file, if any.
    pub fn from_number(n: u8) -> (r: Option<EventChannel>)
        ensures
            r == event_channel_of(n),
    {
        match n {
            0 => Some(EventChannel::System),
            2 => Some(EventChannel::Unknown8),
            3 => Some(EventChannel::ServerAnnouncement),
            8 => Some(EventChannel::Unknown9),
            50 => Some(EventChannel::Unknown1),
            29 => Some(EventChannel::Unknown7),
            32 => Some(EventChannel::Others),
            41 => Some(EventChannel::Unknown5),
            51 => Some(EventChannel::NPCEnemy),
            59 => Some(EventChannel::NPCFriendly),
            64 => Some(EventChannel::Unknown4),
            170 => Some(EventChannel::Unknown6),
            10 => Some(EventChannel::Unknown10),
            66 => Some(EventChannel::Unknown11),
            44 => Some(EventChannel::Unknown12),
            40 => Some(EventChannel::Unknown13),
            42 => Some(EventChannel::Unknown14),
            11 => Some(EventChannel::Unknown15),
            67 => Some(EventChannel::Unknown16),
            68 => Some(EventChannel::Unknown17),
            34 => Some(EventChannel::Unknown18),
            110 => Some(EventChannel::Unknown19),
            _ => None,
        }
    }
}


/// An entry of a chat log.
#[derive(Debug, Clone)]
pub struct ChatLogEntry {
    /// When the message was recorded.
    pub timestamp: u32,
    /// The event filter.
    pub filter: EventFilter,
    /// The event channel.
    pub channel: EventChannel,
    /// The message.
    pub message: String,
}

/// A chat log, which holds previously recorded messages from other players.
#[derive(Debug, Clone)]
pub struct ChatLog {
    /// The entries, in order.
    pub entries: Vec<ChatLogEntry>,
}

/// An entry of a chat log as plain values.
pub struct ChatLogEntryView {
    /// When the message was recorded.
    pub timestamp: u32,
    /// The event filter.
    pub filter: EventFilter,
    /// The event channel.
    pub channel: EventChannel,
    /// The message.
    pub message: Seq<char>,
}

/// The plain values of the entries.
pub open spec fn entry_views(s: Seq<ChatLogEntry>) -> Seq<ChatLogEntryView> {
    Seq::new(
        s.len(),
        |k: int|
            ChatLogEntryView {
                timestamp: s[k].timestamp,
                filter: s[k].filter,
                channel: s[k].channel,
                message: s[k].message@,
            },
    )
}

/// The size of the content, as the header of `b` gives it.
pub open spec fn content_size(b: Seq<u8>) -> u32 {
    u32_le(b, 0)
}

/// The size of the file, in entries of the offset table, as the header of `b` gives it.
pub open spec fn file_size(b: Seq<u8>) -> u32 {
    u32_le(b, 4)
}

/// How many entries the header of `b` lists: the file size less the content size, or none.
pub open spec fn entry_count(b: Seq<u8>) -> int {
    if file_size(b) >= content_size(b) {
        file_size(b) - content_size(b)
    } else {
        0
    }
}

/// Where the entries start: after the sizes and an offset table as long as the file size.
pub open spec fn content_offset(b: Seq<u8>) -> int {
    8 + 4 * file_size(b)
}

/// Where entry `k` starts.
pub open spec fn entry_start(b: Seq<u8>, k: int) -> int {
    content_offset(b) + u32_le(b, 8 + 4 * k)
}

/// Where entry `k` ends: where the next starts, or the end of the file for the last.
pub open spec fn entry_end(b: Seq<u8>, k: int) -> int {
    if k + 1 == entry_count(b) {
        b.len() as int
    } else {
        entry_start(b, k + 1)
    }
}

/// Whether the sizes the header of `b` gives are within the file.
pub open spec fn sizes_plausible(b: Seq<u8>) -> bool {
    content_size(b) <= b.len() && file_size(b) <= b.len()
}

/// Whether entry `k` of `b` reads: its start is followed by its timestamp, known filter and
/// channel numbers and four more bytes, within the entry, which ends within the file.
pub open spec fn entry_ok(b: Seq<u8>, k: int) -> bool {
    &&& entry_start(b, k) + 10 <= entry_end(b, k) <= b.len()
    &&& event_filter_of(b[entry_start(b, k) + 4]) is Some
    &&& event_channel_of(b[entry_start(b, k) + 5]) is Some
}

/// Whether `b` is a chat log: the header and its offset table fit in the file, the sizes it
/// gives are within the file, and each entry it lists reads (see `entry_ok`).
pub open spec fn chat_log_valid(b: Seq<u8>) -> bool {
    &&& b.len() >= 8
    &&& 8 + 4 * entry_count(b) <= b.len()
    &&& sizes_plausible(b)
    &&& forall|k: int| 0 <= k < entry_count(b) ==> #[trigger] entry_ok(b, k)
}

/// The entry `k` of the chat log `b`: its timestamp, filter and channel, then, after four
/// bytes not used, the message up to the entry's end, as UTF-8 with each invalid sequence
/// replaced.
pub open spec fn entry_of(b: Seq<u8>, k: int) -> ChatLogEntryView {
    let p = entry_start(b, k);
    ChatLogEntryView {
        timestamp: u32_le(b, p),
        filter: event_filter_of(b[p + 4]).unwrap(),
        channel: event_channel_of(b[p + 5]).unwrap(),
        message: lossy_text(b.subrange(p + 10, entry_end(b, k))),
    }
}

/// The header of a chat log: the size of its content and of the file, then the offsets of the
/// entries, as many as the file size exceeds the content size.
pub struct ChatLogHeader {
    /// The size of the content.
    pub content_size: u32,
    /// The size of the file, in entries of the offset table.
    pub file_size: u32,
    /// Where each entry starts, past the offset table.
    pub offset_entries: Vec<u32>,
}

impl ChatLogHeader {
    /// Reads the header of a chat log.
    pub fn read(buffer: &[u8]) -> (r: ChatLogHeader)
        requires
            buffer@.len() >= 8,
            8 + 4 * entry_count(buffer@) <= buffer@.len(),
        ensures
            r.content_size == content_size(buffer@),
            r.file_size == file_size(buffer@),
            r.offset_entries@ == Seq::new(
                entry_count(buffer@) as nat,
                |k: int| u32_le(buffer@, 8 + 4 * k),
            ),
    {
        let content_size = read_u32_le(buffer, 0);
        let file_size = read_u32_le(buffer, 4);
        let count: usize = if file_size >= content_size {
            (file_size - content_size) as usize
        } else {
            0
        };
        let len = buffer.len();
        let mut offset_entries: Vec<u32> = Vec::new();
        let mut k: usize = 0;
        while k < count
            invariant
                k <= count,
                count == entry_count(buffer@),
                len == buffer@.len(),
                8 + 4 * count <= buffer@.len(),
                offset_entries@ == Seq::new(k as nat, |m: int| u32_le(buffer@, 8 + 4 * m)),
            decreases count - k,
        {
            offset_entries.push(read_u32_le(buffer, 8 + 4 * k));
            k = k + 1;
            assert(offset_entries@ =~= Seq::new(k as nat, |m: int| u32_le(buffer@, 8 + 4 * m)));
        }
        ChatLogHeader { content_size, file_size, offset_entries }
    }
}

impl ChatLog {
    /// Reads an existing file: `None` where it is not a chat log (see `chat_log_valid`), else
    /// each entry the header lists (see `entry_of`).
    pub fn from_existing(buffer: &[u8]) -> (r: Option<ChatLog>)
        ensures
            r is Some <==> chat_log_valid(buffer@),
            r matches Some(log) ==> entry_views(log.entries@) =~= Seq::new(
                entry_count(buffer@) as nat,
                |k: int| entry_of(buffer@, k),
            ),
    {
        let len = buffer.len();
        if len < 8 {
            return None;
        }
        let content_size = read_u32_le(buffer, 0);
        let file_size = read_u32_le(buffer, 4);
        let listed: u64 = if file_size >= content_size {
            (file_size - content_size) as u64
        } else {
            0
        };
        if 8 + 4 * listed > len as u64 {
            return None;
        }
        let header = ChatLogHeader::read(buffer);
        let content = header.content_size;
        let file = header.file_size;
        let count: usize = header.offset_entries.len();
        if content as usize > len || file as usize > len {
            return None;
        }
        let entries_start: u64 = 8 + (file as u64) * 4;
        let mut entries: Vec<ChatLogEntry> = Vec::new();
        let mut k: usize = 0;
        while k < count
            invariant
                k <= count,
                count == entry_count(buffer@),
                header.offset_entries@ == Seq::new(
                    entry_count(buffer@) as nat,
                    |m: int| u32_le(buffer@, 8 + 4 * m),
                ),
                len == buffer@.len(),
                entries_start == content_offset(buffer@),
                buffer@.len() >= 8,
                8 + 4 * entry_count(buffer@) <= buffer@.len(),
                sizes_plausible(buffer@),
                forall|m: int| 0 <= m < k ==> #[trigger] entry_ok(buffer@, m),
                entry_views(entries@) =~= Seq::new(k as nat, |m: int| entry_of(buffer@, m)),
            decreases count - k,
        {
            let start64 = entries_start + header.offset_entries[k] as u64;
            let end64 = if k + 1 == count {
                len as u64
            } else {
                entries_start + header.offset_entries[k + 1] as u64
            };
            assert(start64 == entry_start(buffer@, k as int));
            assert(end64 == entry_end(buffer@, k as int));
            if start64 + 10 > end64 || end64 > len as u64 {
                assert(!entry_ok(buffer@, k as int));
                return None;
            }
            let start = start64 as usize;
            let end = end64 as usize;
            let timestamp = read_u32_le(buffer, start);
            let filter = match EventFilter::from_number(buffer[start + 4]) {
                Some(f) => f,
                None => {
                    assert(!entry_ok(buffer@, k as int));
                    return None;
                },
            };
            let channel = match EventChannel::from_number(buffer[start + 5]) {
                Some(c) => c,
                None => {
                    assert(!entry_ok(buffer@, k as int));
                    return None;
                },
            };
            assert(entry_ok(buffer@, k as int));
            let mut message_bytes: Vec<u8> = Vec::new();
            let mut m: usize = start + 10;
            while m < end
                invariant
                    start + 10 <= m <= end,
                    end <= buffer@.len(),
                    message_bytes@ == buffer@.subrange(start + 10, m as int),
                decreases end - m,
            {
                message_bytes.push(buffer[m]);
                m = m + 1;
                assert(message_bytes@ =~= buffer@.subrange(start + 10, m as int));
            }
            let message = text_from_bytes_lossy(message_bytes.as_slice());
            let ghost before = entries@;
            let entry = ChatLogEntry { timestamp, filter, channel, message };
            proof {
                let view = ChatLogEntryView {
                    timestamp: entry.timestamp,
                    filter: entry.filter,
                    channel: entry.channel,
                    message: entry.message@,
                };
                assert(view == entry_of(buffer@, k as int));
            }
            entries.push(entry);
            proof {
                assert(entry_views(entries@) =~= entry_views(before).push(entry_of(buffer@, k as int)));
                assert(Seq::new((k + 1) as nat, |m: int| entry_of(buffer@, m)) =~= Seq::new(
                    k as nat,
                    |m: int| entry_of(buffer@, m),
                ).push(entry_of(buffer@, k as int)));
            }
            k = k + 1;
        }
        Some(ChatLog { entries })
    }
}


/// Each event channel is read back from the number that stands for it, so no two share one.
pub proof fn law_event_channel_numbers(v: EventChannel)
    ensures
        event_channel_of(event_channel_number(v)) == Some(v),
{
}

} // verus!
