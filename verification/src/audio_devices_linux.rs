//! PulseAudio and PipeWire sinks, read from the sound server's short listing.

use vstd::prelude::*;

use crate::menu_state::{AudioOutDevice, AudioOutDeviceView};
use crate::text;
use crate::text::{char_vec, second_word, skip_line};

verus! {

/// The output device that a sink stands for.
pub open spec fn sink_device(name: Seq<char>) -> AudioOutDeviceView {
    AudioOutDeviceView { uid: name, name, is_default: false, sample_rate_hz: 0 }
}

/// The output devices of a listing: each line with at least two words is a sink,
/// and its second word is the sink's name.
pub open spec fn listed_sinks(listing: Seq<char>) -> Seq<AudioOutDeviceView>
    decreases listing.len(),
{
    if listing.len() == 0 {
        Seq::empty()
    } else {
        let n = text::line_length(listing) as int;
        let words = text::words(listing.take(n));
        let first = if words.len() >= 2 {
            seq![sink_device(words[1])]
        } else {
            Seq::empty()
        };
        if n < listing.len() {
            first + listed_sinks(listing.skip(n + 1))
        } else {
            first
        }
    }
}

/// The output devices that a list holds.
pub open spec fn device_views(list: Seq<AudioOutDevice>) -> Seq<AudioOutDeviceView> {
    list.map_values(|d: AudioOutDevice| d@)
}

/// The output devices of the sound server's listing. A server that could not be
/// asked, or that reported failure, has none.
pub fn enumerate_output_devices(listing: Option<&str>) -> (r: Vec<AudioOutDevice>)
    ensures
        listing is None ==> r@.len() == 0,
        listing matches Some(l) ==> device_views(r@) == listed_sinks(l@),
{
    let mut out: Vec<AudioOutDevice> = Vec::new();
    let chars = match listing {
        Some(l) => char_vec(l),
        None => {
            return out;
        },
    };
    let mut pos: usize = 0;
    assert(chars@.skip(0) =~= chars@);
    assert(device_views(out@) + listed_sinks(chars@) =~= listed_sinks(chars@));
    while pos < chars.len()
        invariant
            0 <= pos <= chars@.len(),
            device_views(out@) + listed_sinks(chars@.skip(pos as int)) == listed_sinks(chars@),
        decreases chars@.len() - pos,
    {
        let ghost rest = chars@.skip(pos as int);
        let ghost before = out@;
        let end: usize = skip_line(chars.as_slice(), pos);
        assert(rest.take(end - pos) =~= chars@.subrange(pos as int, end as int));
        let name = second_word(chars.as_slice(), pos, end);
        match name {
            Some(name) => {
                out.push(
                    AudioOutDevice {
                        uid: name.clone(),
                        name,
                        is_default: false,
                        sample_rate_hz: 0,
                    },
                );
                assert(device_views(out@) =~= device_views(before) + seq![sink_device(name@)]);
            },
            None => {
                assert(device_views(out@) =~= device_views(before) + Seq::empty());
            },
        }
        if end < chars.len() {
            assert(rest.skip(end - pos + 1) =~= chars@.skip(end + 1));
            pos = end + 1;
        } else {
            assert(chars@.skip(end as int) =~= Seq::empty());
            assert(device_views(out@) + listed_sinks(Seq::empty()) =~= device_views(out@));
            pos = end;
        }
        proof {
            let tail = listed_sinks(chars@.skip(pos as int));
            text::lemma_regroup(
                device_views(before),
                device_views(out@).skip(before.len() as int),
                tail,
            );
            assert(device_views(out@) =~= device_views(before) + device_views(out@).skip(
                before.len() as int,
            ));
        }
    }
    assert(chars@.skip(pos as int) =~= Seq::empty());
    assert(device_views(out@) + listed_sinks(Seq::empty()) =~= device_views(out@));
    out
}

/// The lines of a listing are read one by one.
pub proof fn listings_are_read_line_by_line(line: Seq<char>, rest: Seq<char>)
    requires
        forall|i: int| 0 <= i < line.len() ==> #[trigger] line[i] != '\n',
    ensures
        listed_sinks(line + seq!['\n'] + rest) == listed_sinks(line) + listed_sinks(rest),
        listed_sinks(Seq::empty()) == Seq::<AudioOutDeviceView>::empty(),
{
    let all = line + seq!['\n'] + rest;
    let n = line.len() as int;
    let p = |c: char| c != '\n';
    text::lemma_run_length(all, p, n);
    text::lemma_run_length(line, p, n);
    assert(all.take(n) =~= line);
    assert(line.take(n) =~= line);
    assert(all.skip(n + 1) =~= rest);
    if n == 0 {
        assert(text::words(line) =~= Seq::<Seq<char>>::empty());
        assert(listed_sinks(line) + listed_sinks(rest) =~= listed_sinks(rest));
        assert(Seq::<AudioOutDeviceView>::empty() + listed_sinks(rest) =~= listed_sinks(rest));
    }
}

/// A line gives the sink that its second word names, whatever else follows on it: the name is
/// what the device is called and found by, it is no default, and its rate is not known. A line
/// of one word gives none.
pub proof fn lines_name_their_sink_second(
    index: Seq<char>,
    gap: char,
    name: Seq<char>,
    second_gap: char,
    rest: Seq<char>,
)
    requires
        index.len() > 0,
        name.len() > 0,
        forall|i: int| 0 <= i < index.len() ==> !text::is_space(#[trigger] index[i]),
        forall|i: int| 0 <= i < name.len() ==> !text::is_space(#[trigger] name[i]),
        forall|i: int| 0 <= i < rest.len() ==> #[trigger] rest[i] != '\n',
        text::is_space(gap) && gap != '\n',
        text::is_space(second_gap) && second_gap != '\n',
    ensures
        listed_sinks(index) == Seq::<AudioOutDeviceView>::empty(),
        ({
            let sinks = listed_sinks(index + seq![gap] + (name + seq![second_gap] + rest));
            &&& sinks.len() == 1
            &&& sinks[0].uid == name
            &&& sinks[0].name == name
            &&& !sinks[0].is_default
            &&& sinks[0].sample_rate_hz == 0
        }),
{
    let tail = name + seq![second_gap] + rest;
    let line = index + seq![gap] + tail;
    let p = |c: char| c != '\n';
    assert forall|i: int| 0 <= i < line.len() implies p(#[trigger] line[i]) by {
        if i < index.len() {
            assert(!text::is_space(index[i]));
        } else if i > index.len() {
            let j = i - index.len() - 1;
            assert(line[i] == tail[j]);
            if j < name.len() {
                assert(!text::is_space(name[j]));
            } else if j > name.len() {
                assert(tail[j] == rest[j - name.len() - 1]);
            }
        }
    }
    text::lemma_run_length(line, p, line.len() as int);
    assert(line.take(line.len() as int) =~= line);
    text::words_are_split_at_white_space(name, second_gap, rest);
    text::words_are_split_at_white_space(index, gap, tail);
    assert(text::words(line)[1] == name);
    assert forall|i: int| 0 <= i < index.len() implies p(#[trigger] index[i]) by {
        assert(!text::is_space(index[i]));
    }
    text::lemma_run_length(index, p, index.len() as int);
    assert(index.take(index.len() as int) =~= index);
}

} // verus!
