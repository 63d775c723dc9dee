//! Tag (metadata) evidence: a fixed set of descriptive tags is read
//! through the outside tag reader, and three layered, cumulative checks
//! decide whether they carry an AI fingerprint.  Later checks may
//! overwrite the generator label chosen by earlier ones; the final record
//! reflects the last writer.

use vstd::prelude::*;

use crate::tables::{
    comment_phrase_table, comment_phrase_table_x, generator_table, software_tool_table,
    software_tool_table_x,
};
use crate::text::{any_match_in, first_sub_match, lower, lower_chars};
use crate::types::{ExifInfo, ExifInfoV};

verus! {

pub open spec fn lower_opt(o: Option<Seq<char>>) -> Option<Seq<char>> {
    match o {
        Some(s) => Some(lower(s)),
        None => None,
    }
}

/// Whether any field is present.
pub open spec fn any_present(fields: Seq<Option<Seq<char>>>) -> bool
    decreases fields.len(),
{
    if fields.len() == 0 {
        false
    } else {
        fields[0] is Some || any_present(fields.drop_first())
    }
}

/// The present fields joined with single spaces, in order.
pub open spec fn join_present(fields: Seq<Option<Seq<char>>>) -> Seq<char>
    decreases fields.len(),
{
    if fields.len() == 0 {
        Seq::empty()
    } else {
        let rest = join_present(fields.drop_first());
        match fields[0] {
            None => rest,
            Some(s) => if any_present(fields.drop_first()) {
                s + " "@ + rest
            } else {
                s
            },
        }
    }
}

/// The case-folded concatenation of the six descriptive fields consulted
/// by the fingerprint scan: software, make, model, artist, user comment
/// and image description.
pub open spec fn spec_tag_text(
    software: Option<Seq<char>>,
    make: Option<Seq<char>>,
    model: Option<Seq<char>>,
    artist: Option<Seq<char>>,
    user_comment: Option<Seq<char>>,
    image_description: Option<Seq<char>>,
) -> Seq<char> {
    join_present(
        seq![
            lower_opt(software),
            lower_opt(make),
            lower_opt(model),
            lower_opt(artist),
            lower_opt(user_comment),
            lower_opt(image_description),
        ],
    )
}

/// The three layered checks: the fingerprint table over the joined text,
/// then the software tag alone against the tool list (overwriting the
/// label with the verbatim software string), then the user comment
/// against the provenance phrases (setting a generic label only when none
/// is set yet).
pub open spec fn spec_exif_detection(
    software: Option<Seq<char>>,
    make: Option<Seq<char>>,
    model: Option<Seq<char>>,
    artist: Option<Seq<char>>,
    user_comment: Option<Seq<char>>,
    image_description: Option<Seq<char>>,
) -> (bool, Option<Seq<char>>) {
    let text = spec_tag_text(software, make, model, artist, user_comment, image_description);
    let hit = first_sub_match(text, generator_table());
    let d1 = hit is Some;
    let g1: Option<Seq<char>> = match hit {
        Some(i) => Some(generator_table()[i]),
        None => None,
    };
    let sw_hit = software is Some && first_sub_match(lower(software->0), software_tool_table())
        is Some;
    let d2 = d1 || sw_hit;
    let g2 = if sw_hit {
        Some(software->0)
    } else {
        g1
    };
    let comment_hit = user_comment is Some && first_sub_match(
        lower(user_comment->0),
        comment_phrase_table(),
    ) is Some;
    let d3 = d2 || comment_hit;
    let g3 = if comment_hit && g2 is None {
        Some("AI Generator (from metadata)"@)
    } else {
        g2
    };
    (d3, g3)
}

/// The full tag-evidence record for the given tag values.
pub open spec fn spec_build_exif_info(
    software: Option<Seq<char>>,
    make: Option<Seq<char>>,
    model: Option<Seq<char>>,
    artist: Option<Seq<char>>,
    copyright: Option<Seq<char>>,
    user_comment: Option<Seq<char>>,
    image_description: Option<Seq<char>>,
    date_time_original: Option<Seq<char>>,
) -> ExifInfoV {
    let (detected, generator) = spec_exif_detection(
        software,
        make,
        model,
        artist,
        user_comment,
        image_description,
    );
    ExifInfoV {
        software,
        make,
        model,
        artist,
        copyright,
        user_comment,
        image_description,
        date_time_original,
        ai_detected: detected,
        ai_generator: generator,
    }
}

/// A tag record is consistent when its detection flag and generator label
/// are exactly the layered heuristics applied to its own fields.
pub open spec fn tag_record_consistent(e: ExifInfoV) -> bool {
    e == spec_build_exif_info(
        e.software,
        e.make,
        e.model,
        e.artist,
        e.copyright,
        e.user_comment,
        e.image_description,
        e.date_time_original,
    )
}

/// One step of the right-to-left join: prepend a field to an already
/// joined suffix.
fn join_step(field: &Option<String>, acc: Vec<char>, anyp: bool, Ghost(rest): Ghost<
    Seq<Option<Seq<char>>>,
>) -> (r: (Vec<char>, bool))
    requires
        acc@ == join_present(rest),
        anyp == any_present(rest),
    ensures
        r.0@ == join_present(seq![lower_opt(field.deep_view())] + rest),
        r.1 == any_present(seq![lower_opt(field.deep_view())] + rest),
{
    let ghost fs = seq![lower_opt(field.deep_view())] + rest;
    proof {
        assert(fs.drop_first() =~= rest);
        assert(fs[0] == lower_opt(field.deep_view()));
    }
    match field {
        None => (acc, anyp),
        Some(s) => {
            let mut nv = lower_chars(s.as_str());
            if anyp {
                nv.push(' ');
                let mut a = acc;
                nv.append(&mut a);
                proof {
                    reveal_strlit(" ");
                    assert(" "@ =~= seq![' ']);
                    assert(nv@ =~= lower(s@) + " "@ + join_present(rest));
                }
            }
            (nv, true)
        },
    }
}

/// The case-folded joined text of the six descriptive fields.
fn build_tag_text(
    software: &Option<String>,
    make: &Option<String>,
    model: &Option<String>,
    artist: &Option<String>,
    user_comment: &Option<String>,
    image_description: &Option<String>,
) -> (r: Vec<char>)
    ensures
        r@ == spec_tag_text(
            software.deep_view(),
            make.deep_view(),
            model.deep_view(),
            artist.deep_view(),
            user_comment.deep_view(),
            image_description.deep_view(),
        ),
{
    let ghost f6: Seq<Option<Seq<char>>> = Seq::empty();
    let acc: Vec<char> = Vec::new();
    let (acc, anyp) = join_step(image_description, acc, false, Ghost(f6));
    let ghost f5 = seq![lower_opt(image_description.deep_view())] + f6;
    let (acc, anyp) = join_step(user_comment, acc, anyp, Ghost(f5));
    let ghost f4 = seq![lower_opt(user_comment.deep_view())] + f5;
    let (acc, anyp) = join_step(artist, acc, anyp, Ghost(f4));
    let ghost f3 = seq![lower_opt(artist.deep_view())] + f4;
    let (acc, anyp) = join_step(model, acc, anyp, Ghost(f3));
    let ghost f2 = seq![lower_opt(model.deep_view())] + f3;
    let (acc, anyp) = join_step(make, acc, anyp, Ghost(f2));
    let ghost f1 = seq![lower_opt(make.deep_view())] + f2;
    let (acc, _anyp) = join_step(software, acc, anyp, Ghost(f1));
    let ghost f0 = seq![lower_opt(software.deep_view())] + f1;
    proof {
        assert(f0 =~= seq![
            lower_opt(software.deep_view()),
            lower_opt(make.deep_view()),
            lower_opt(model.deep_view()),
            lower_opt(artist.deep_view()),
            lower_opt(user_comment.deep_view()),
            lower_opt(image_description.deep_view()),
        ]);
    }
    acc
}

/// Build the tag-evidence record from the raw tag values, applying the
/// three layered checks.
pub fn build_exif_info(
    software: Option<String>,
    make: Option<String>,
    model: Option<String>,
    artist: Option<String>,
    copyright: Option<String>,
    user_comment: Option<String>,
    image_description: Option<String>,
    date_time_original: Option<String>,
) -> (r: ExifInfo)
    ensures
        r@ == spec_build_exif_info(
            software.deep_view(),
            make.deep_view(),
            model.deep_view(),
            artist.deep_view(),
            copyright.deep_view(),
            user_comment.deep_view(),
            image_description.deep_view(),
            date_time_original.deep_view(),
        ),
{
    let text = build_tag_text(
        &software,
        &make,
        &model,
        &artist,
        &user_comment,
        &image_description,
    );
    let mut ai_detected = false;
    let mut ai_generator: Option<String> = None;
    if let Some(hit) = crate::tables::generator_fingerprint(&text) {
        ai_detected = true;
        ai_generator = Some(hit.to_owned());
    }
    if let Some(sw) = &software {
        let sw_low = lower_chars(sw.as_str());
        let tools = software_tool_table_x();
        if any_match_in(&sw_low, &tools) {
            ai_detected = true;
            ai_generator = Some(sw.clone());
        }
    }
    if let Some(comment) = &user_comment {
        let comment_low = lower_chars(comment.as_str());
        let phrases = comment_phrase_table_x();
        if any_match_in(&comment_low, &phrases) {
            ai_detected = true;
            if ai_generator.is_none() {
                ai_generator = Some("AI Generator (from metadata)".to_owned());
            }
        }
    }
    ExifInfo {
        software,
        make,
        model,
        artist,
        copyright,
        user_comment,
        image_description,
        date_time_original,
        ai_detected,
        ai_generator,
    }
}

/// A parsed set of tags, produced and read only by the outside tag
/// reader.
#[verifier::external_type_specification]
#[verifier::external_body]
pub struct ExExifData(exif::Exif);

/// Relies on exif::Reader::read_raw: parses raw Exif (TIFF) attribute
/// data; an error becomes `None`.
#[verifier::external_body]
fn read_exif_raw(data: &Vec<u8>) -> Option<exif::Exif> {
    exif::Reader::new().read_raw(data.clone()).ok()
}

/// Relies on exif::Reader::read_from_container: locates and parses the
/// Exif segment of a container format; an error becomes `None`.
#[verifier::external_body]
fn read_exif_container(data: &Vec<u8>) -> Option<exif::Exif> {
    exif::Reader::new().read_from_container(&mut std::io::Cursor::new(data.as_slice())).ok()
}

/// Relies on exif::Exif::get_field and Field::display_value: the
/// displayed Software tag of the primary image, if present.
#[verifier::external_body]
fn tag_software(e: &exif::Exif) -> Option<String> {
    e.get_field(exif::Tag::Software, exif::In::PRIMARY).map(
        |f| f.display_value().with_unit(e).to_string(),
    )
}

/// Relies on exif::Exif::get_field and Field::display_value: the
/// displayed Make tag of the primary image, if present.
#[verifier::external_body]
fn tag_make(e: &exif::Exif) -> Option<String> {
    e.get_field(exif::Tag::Make, exif::In::PRIMARY).map(
        |f| f.display_value().with_unit(e).to_string(),
    )
}

/// Relies on exif::Exif::get_field and Field::display_value: the
/// displayed Model tag of the primary image, if present.
#[verifier::external_body]
fn tag_model(e: &exif::Exif) -> Option<String> {
    e.get_field(exif::Tag::Model, exif::In::PRIMARY).map(
        |f| f.display_value().with_unit(e).to_string(),
    )
}

/// Relies on exif::Exif::get_field and Field::display_value: the
/// displayed Artist tag of the primary image, if present.
#[verifier::external_body]
fn tag_artist(e: &exif::Exif) -> Option<String> {
    e.get_field(exif::Tag::Artist, exif::In::PRIMARY).map(
        |f| f.display_value().with_unit(e).to_string(),
    )
}

/// Relies on exif::Exif::get_field and Field::display_value: the
/// displayed Copyright tag of the primary image, if present.
#[verifier::external_body]
fn tag_copyright(e: &exif::Exif) -> Option<String> {
    e.get_field(exif::Tag::Copyright, exif::In::PRIMARY).map(
        |f| f.display_value().with_unit(e).to_string(),
    )
}

/// Relies on exif::Exif::get_field and Field::display_value: the
/// displayed UserComment tag of the primary image, if present.
#[verifier::external_body]
fn tag_user_comment(e: &exif::Exif) -> Option<String> {
    e.get_field(exif::Tag::UserComment, exif::In::PRIMARY).map(
        |f| f.display_value().with_unit(e).to_string(),
    )
}

/// Relies on exif::Exif::get_field and Field::display_value: the
/// displayed ImageDescription tag of the primary image, if present.
#[verifier::external_body]
fn tag_image_description(e: &exif::Exif) -> Option<String> {
    e.get_field(exif::Tag::ImageDescription, exif::In::PRIMARY).map(
        |f| f.display_value().with_unit(e).to_string(),
    )
}

/// Relies on exif::Exif::get_field and Field::display_value: the
/// displayed DateTimeOriginal tag of the primary image, if present.
#[verifier::external_body]
fn tag_date_time_original(e: &exif::Exif) -> Option<String> {
    e.get_field(exif::Tag::DateTimeOriginal, exif::In::PRIMARY).map(
        |f| f.display_value().with_unit(e).to_string(),
    )
}

fn exif_record_of(e: &exif::Exif) -> (r: ExifInfo)
    ensures
        r@ == spec_build_exif_info(
            r@.software,
            r@.make,
            r@.model,
            r@.artist,
            r@.copyright,
            r@.user_comment,
            r@.image_description,
            r@.date_time_original,
        ),
{
    build_exif_info(
        tag_software(e),
        tag_make(e),
        tag_model(e),
        tag_artist(e),
        tag_copyright(e),
        tag_user_comment(e),
        tag_image_description(e),
        tag_date_time_original(e),
    )
}

/// Tag evidence from raw Exif attribute bytes: whatever fields the tag
/// reader hands back, the record's detection flags are exactly the
/// layered heuristics applied to those fields.
pub fn parse_exif_from_bytes(data: &Vec<u8>) -> (r: Option<ExifInfo>)
    ensures
        match r {
            Some(info) => tag_record_consistent(info@),
            None => true,
        },
{
    match read_exif_raw(data) {
        Some(e) => Some(exif_record_of(&e)),
        None => None,
    }
}

/// Tag evidence from a whole container (image or video file bytes), with
/// the same guarantee as `parse_exif_from_bytes`.
pub fn parse_exif_from_container(data: &Vec<u8>) -> (r: Option<ExifInfo>)
    ensures
        match r {
            Some(info) => tag_record_consistent(info@),
            None => true,
        },
{
    match read_exif_container(data) {
        Some(e) => Some(exif_record_of(&e)),
        None => None,
    }
}

} // verus!
