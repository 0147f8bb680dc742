//! Named parameters and the forms that are posted to the service.

use super::types::{Delivery, DeliveryFormat};
use crate::obsid::Obsid;
use crate::text::{copy_str, decimal, decimal_digits, push_char, push_decimal, str_eq};
use vstd::prelude::*;

verus! {

/// The map that a list of pairs stands for: a later pair replaces an
/// earlier one with the same key.
pub open spec fn pairs_map(pairs: Seq<(Seq<char>, Seq<char>)>) -> Map<Seq<char>, Seq<char>>
    decreases pairs.len(),
{
    if pairs.len() == 0 {
        Map::<Seq<char>, Seq<char>>::empty()
    } else {
        pairs_map(pairs.drop_last()).insert(pairs.last().0, pairs.last().1)
    }
}

/// The character sequences of a list of pairs of strings.
pub open spec fn pair_texts(pairs: Seq<(String, String)>) -> Seq<(Seq<char>, Seq<char>)> {
    Seq::new(pairs.len(), |i: int| (pairs[i].0@, pairs[i].1@))
}

/// Named parameters: a map from names to values, both text. The pairs are
/// kept in the order in which they were set.
#[derive(Debug)]
pub struct Parameters {
    pairs: Vec<(String, String)>,
}

impl View for Parameters {
    type V = Map<Seq<char>, Seq<char>>;

    closed spec fn view(&self) -> Map<Seq<char>, Seq<char>> {
        pairs_map(pair_texts(self.pairs@))
    }
}

/// Where no pair from `from` on has the key, the pairs before `from`
/// decide what the key maps to.
proof fn lemma_tail_without_key(pairs: Seq<(Seq<char>, Seq<char>)>, from: int, key: Seq<char>)
    requires
        0 <= from <= pairs.len(),
        forall|i: int| from <= i < pairs.len() ==> (#[trigger] pairs[i]).0 != key,
    ensures
        pairs_map(pairs).contains_key(key) == pairs_map(pairs.take(from)).contains_key(key),
        pairs_map(pairs).contains_key(key) ==> pairs_map(pairs)[key] == pairs_map(
            pairs.take(from),
        )[key],
    decreases pairs.len() - from,
{
    if from == pairs.len() {
        assert(pairs.take(from) == pairs);
    } else {
        let shorter = pairs.drop_last();
        assert(shorter.take(from) == pairs.take(from));
        assert forall|i: int| from <= i < shorter.len() implies (#[trigger] shorter[i]).0
            != key by {
            assert(shorter[i] == pairs[i]);
        }
        lemma_tail_without_key(shorter, from, key);
        assert(pairs.last().0 != key);
    }
}

impl Parameters {
    /// No parameters.
    pub fn new() -> (p: Parameters)
        ensures
            p@ == Map::<Seq<char>, Seq<char>>::empty(),
    {
        let p = Parameters { pairs: Vec::new() };
        assert(pair_texts(p.pairs@) =~= Seq::<(Seq<char>, Seq<char>)>::empty());
        p
    }

    /// Sets the parameter `key` to `value`, whether or not it was set
    /// before.
    pub fn insert(&mut self, key: &str, value: &str)
        ensures
            final(self)@ == old(self)@.insert(key@, value@),
    {
        let ghost before = pair_texts(self.pairs@);
        self.pairs.push((copy_str(key), copy_str(value)));
        proof {
            assert(pair_texts(self.pairs@).drop_last() =~= before);
            assert(pair_texts(self.pairs@).last() == (key@, value@));
        }
    }

    /// The value of the parameter `key`, if it is set.
    pub fn get(&self, key: &str) -> (r: Option<&str>)
        ensures
            match r {
                Some(value) => self@.contains_key(key@) && self@[key@] == value@,
                None => !self@.contains_key(key@),
            },
    {
        let ghost pairs = pair_texts(self.pairs@);
        let mut i: usize = self.pairs.len();
        while i > 0
            invariant
                i <= self.pairs.len(),
                pairs == pair_texts(self.pairs@),
                forall|k: int| i <= k < pairs.len() ==> (#[trigger] pairs[k]).0 != key@,
            decreases i,
        {
            i -= 1;
            if str_eq(self.pairs[i].0.as_str(), key) {
                proof {
                    lemma_tail_without_key(pairs, i + 1, key@);
                    assert(pairs.take(i + 1).drop_last() == pairs.take(i as int));
                    assert(pairs.take(i + 1).last() == pairs[i as int]);
                }
                return Some(self.pairs[i].1.as_str());
            }
        }
        proof {
            lemma_tail_without_key(pairs, 0, key@);
            assert(pairs.take(0) =~= Seq::<(Seq<char>, Seq<char>)>::empty());
        }
        None
    }

    /// Whether the parameter `key` is set.
    pub fn contains_key(&self, key: &str) -> (yes: bool)
        ensures
            yes == self@.contains_key(key@),
    {
        self.get(key).is_some()
    }

    /// Sets every parameter of `other`, in the order in which `other` got
    /// them: where both have a parameter, `other`'s value wins.
    pub fn extend(&mut self, other: &Parameters)
        ensures
            final(self)@ == old(self)@.union_prefer_right(other@),
    {
        let ghost start = self@;
        let ghost theirs = pair_texts(other.pairs@);
        let mut i: usize = 0;
        proof {
            assert(theirs.take(0) =~= Seq::<(Seq<char>, Seq<char>)>::empty());
            assert(self@ =~= start.union_prefer_right(pairs_map(theirs.take(0))));
        }
        while i < other.pairs.len()
            invariant
                i <= other.pairs.len(),
                theirs == pair_texts(other.pairs@),
                self@ == start.union_prefer_right(pairs_map(theirs.take(i as int))),
            decreases other.pairs.len() - i,
        {
            let ghost before = self@;
            proof {
                assert(theirs.take(i + 1).drop_last() == theirs.take(i as int));
                assert(theirs.take(i + 1).last() == theirs[i as int]);
            }
            self.insert(other.pairs[i].0.as_str(), other.pairs[i].1.as_str());
            proof {
                assert(self@ =~= start.union_prefer_right(pairs_map(theirs.take(i + 1))));
            }
            i += 1;
        }
        proof {
            assert(theirs.take(other.pairs.len() as int) == theirs);
        }
    }

    /// The pairs, in the order in which they were set. A key may stand more
    /// than once: the last pair with a key holds its value.
    pub fn pairs(&self) -> (pairs: &Vec<(String, String)>)
        ensures
            pairs_map(pair_texts(pairs@)) == self@,
    {
        &self.pairs
    }
}

/// The parameters of a conversion when the user gives none: the output is
/// `uvfits`, the frequency resolution 80 kHz, and 80 kHz are flagged at the
/// edges of each coarse band.
pub open spec fn default_conversion_map() -> Map<Seq<char>, Seq<char>> {
    Map::<Seq<char>, Seq<char>>::empty().insert("output"@, "uvfits"@).insert(
        "avg_freq_res"@,
        "80"@,
    ).insert("flag_edge_width"@, "80"@)
}

/// The parameters of a conversion when the user gives none.
pub fn default_conversion_parameters() -> (p: Parameters)
    ensures
        p@ == default_conversion_map(),
{
    let mut p = Parameters::new();
    p.insert("output", "uvfits");
    p.insert("avg_freq_res", "80");
    p.insert("flag_edge_width", "80");
    p
}

/// `true` or `false`, as text.
pub open spec fn bool_text(b: bool) -> Seq<char> {
    if b {
        "true"@
    } else {
        "false"@
    }
}

fn bool_name(b: bool) -> (r: &'static str)
    ensures
        r@ == bool_text(b),
{
    if b {
        "true"
    } else {
        "false"
    }
}

/// A number with its sign, in decimal.
pub open spec fn signed_digits(n: int) -> Seq<char> {
    if n < 0 {
        seq!['-'] + decimal_digits((-n) as nat)
    } else {
        decimal_digits(n as nat)
    }
}

/// The decimal form of a signed number.
pub fn signed_decimal(n: i32) -> (s: String)
    ensures
        s@ == signed_digits(n as int),
{
    let mut s = String::new();
    if n < 0 {
        push_char(&mut s, '-');
        let magnitude: u64 = (-(n as i64)) as u64;
        push_decimal(&mut s, magnitude);
    } else {
        push_decimal(&mut s, n as u64);
    }
    proof {
        assert(s@ =~= signed_digits(n as int));
    }
    s
}

/// A form with the delivery format set where there is one.
pub open spec fn with_format(form: Map<Seq<char>, Seq<char>>, format: Option<DeliveryFormat>)
    -> Map<Seq<char>, Seq<char>> {
    match format {
        Some(f) => form.insert("delivery_format"@, f.name_text()),
        None => form,
    }
}

fn set_format(form: &mut Parameters, format: Option<DeliveryFormat>)
    ensures
        final(form)@ == with_format(old(form)@, format),
{
    match format {
        Some(f) => form.insert("delivery_format", f.name()),
        None => {},
    }
}

/// The form for a download of visibilities (`download_type` is `vis`) or
/// of metadata (`vis_meta`).
pub open spec fn download_form_map(
    obsid: u64,
    delivery: Delivery,
    format: Option<DeliveryFormat>,
    download_type: Seq<char>,
    allow_resubmit: bool,
) -> Map<Seq<char>, Seq<char>> {
    with_format(
        Map::<Seq<char>, Seq<char>>::empty().insert("obs_id"@, decimal_digits(obsid as nat)).insert(
            "delivery"@,
            delivery.name_text(),
        ),
        format,
    ).insert("download_type"@, download_type).insert("allow_resubmit"@, bool_text(allow_resubmit))
}

fn download_form(
    obsid: Obsid,
    delivery: Delivery,
    format: Option<DeliveryFormat>,
    download_type: &str,
    allow_resubmit: bool,
) -> (form: Parameters)
    ensures
        form@ == download_form_map(obsid@, delivery, format, download_type@, allow_resubmit),
{
    let mut form = Parameters::new();
    let id = decimal(obsid.value());
    form.insert("obs_id", id.as_str());
    form.insert("delivery", delivery.name());
    set_format(&mut form, format);
    form.insert("download_type", download_type);
    form.insert("allow_resubmit", bool_name(allow_resubmit));
    form
}

/// The form that submits a job for the download of visibilities.
pub fn vis_form(
    obsid: Obsid,
    delivery: Delivery,
    delivery_format: Option<DeliveryFormat>,
    allow_resubmit: bool,
) -> (form: Parameters)
    ensures
        form@ == download_form_map(obsid@, delivery, delivery_format, "vis"@, allow_resubmit),
{
    download_form(obsid, delivery, delivery_format, "vis", allow_resubmit)
}

/// The form that submits a job for the download of metadata.
pub fn meta_form(
    obsid: Obsid,
    delivery: Delivery,
    delivery_format: Option<DeliveryFormat>,
    allow_resubmit: bool,
) -> (form: Parameters)
    ensures
        form@ == download_form_map(obsid@, delivery, delivery_format, "vis_meta"@, allow_resubmit),
{
    download_form(obsid, delivery, delivery_format, "vis_meta", allow_resubmit)
}

/// A form with one channel bound set where there is one.
pub open spec fn with_channel(
    form: Map<Seq<char>, Seq<char>>,
    key: Seq<char>,
    channel: Option<i32>,
) -> Map<Seq<char>, Seq<char>> {
    match channel {
        Some(c) => form.insert(key, signed_digits(c as int)),
        None => form,
    }
}

/// The form for a download of voltages. A range of channels is marked as
/// such when either of its bounds is given.
pub open spec fn volt_form_map(
    obsid: u64,
    delivery: Delivery,
    offset: i32,
    duration: i32,
    from_channel: Option<i32>,
    to_channel: Option<i32>,
    allow_resubmit: bool,
) -> Map<Seq<char>, Seq<char>> {
    let base = Map::<Seq<char>, Seq<char>>::empty().insert(
        "obs_id"@,
        decimal_digits(obsid as nat),
    ).insert("delivery"@, delivery.name_text()).insert(
        "offset"@,
        signed_digits(offset as int),
    ).insert("duration"@, signed_digits(duration as int));
    let ranged = if from_channel is Some || to_channel is Some {
        base.insert("channel_range"@, "true"@)
    } else {
        base
    };
    with_channel(
        with_channel(ranged, "from_channel"@, from_channel),
        "to_channel"@,
        to_channel,
    ).insert("download_type"@, "volt"@).insert("allow_resubmit"@, bool_text(allow_resubmit))
}

fn set_channel(form: &mut Parameters, key: &str, channel: Option<i32>)
    ensures
        final(form)@ == with_channel(old(form)@, key@, channel),
{
    match channel {
        Some(c) => {
            let text = signed_decimal(c);
            form.insert(key, text.as_str());
        },
        None => {},
    }
}

/// The form that submits a job for the download of voltages.
pub fn volt_form(
    obsid: Obsid,
    delivery: Delivery,
    offset: i32,
    duration: i32,
    from_channel: Option<i32>,
    to_channel: Option<i32>,
    allow_resubmit: bool,
) -> (form: Parameters)
    ensures
        form@ == volt_form_map(
            obsid@,
            delivery,
            offset,
            duration,
            from_channel,
            to_channel,
            allow_resubmit,
        ),
{
    let mut form = Parameters::new();
    let id = decimal(obsid.value());
    let offset_text = signed_decimal(offset);
    let duration_text = signed_decimal(duration);
    form.insert("obs_id", id.as_str());
    form.insert("delivery", delivery.name());
    form.insert("offset", offset_text.as_str());
    form.insert("duration", duration_text.as_str());
    if from_channel.is_some() || to_channel.is_some() {
        form.insert("channel_range", "true");
    }
    set_channel(&mut form, "from_channel", from_channel);
    set_channel(&mut form, "to_channel", to_channel);
    form.insert("download_type", "volt");
    form.insert("allow_resubmit", bool_name(allow_resubmit));
    form
}

/// The form for a conversion: the defaults, replaced by what the user
/// asked for, and on top of both the obsid's companions that the user is
/// not to set through parameters: the delivery, its format and whether a
/// resubmission is allowed.
pub open spec fn conv_form_map(
    obsid: u64,
    delivery: Delivery,
    format: Option<DeliveryFormat>,
    parameters: Map<Seq<char>, Seq<char>>,
    allow_resubmit: bool,
) -> Map<Seq<char>, Seq<char>> {
    with_format(
        Map::<Seq<char>, Seq<char>>::empty().insert(
            "obs_id"@,
            decimal_digits(obsid as nat),
        ).union_prefer_right(default_conversion_map()).union_prefer_right(parameters).insert(
            "delivery"@,
            delivery.name_text(),
        ),
        format,
    ).insert("allow_resubmit"@, bool_text(allow_resubmit))
}

/// The form that submits a job for conversion.
pub fn conv_form(
    obsid: Obsid,
    delivery: Delivery,
    delivery_format: Option<DeliveryFormat>,
    parameters: &Parameters,
    allow_resubmit: bool,
) -> (form: Parameters)
    ensures
        form@ == conv_form_map(obsid@, delivery, delivery_format, parameters@, allow_resubmit),
{
    let mut form = Parameters::new();
    let id = decimal(obsid.value());
    form.insert("obs_id", id.as_str());
    let defaults = default_conversion_parameters();
    form.extend(&defaults);
    form.extend(parameters);
    form.insert("delivery", delivery.name());
    set_format(&mut form, delivery_format);
    form.insert("allow_resubmit", bool_name(allow_resubmit));
    form
}

} // verus!
