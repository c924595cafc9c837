use crate::rng::{chacha20_block, sha256_of, Prng, STREAM_WORDS};
use vstd::prelude::*;

verus! {

/// Domain tag of the generator that colours a new dice set.
pub const DICE_TAG: u8 = 12;

/// Description that every dice set starts with.
pub const DICE_DESCRIPTION: &'static str = "A dice set for web3 gaming";

/// Name that every dice set starts with.
pub const DICE_NAME: &'static str = "Poker Joke Dice";

/// The lowercase hexadecimal digit of a nibble.
pub open spec fn hex_digit(n: u8) -> char {
    seq!['0', '1', '2', '3', '4', '5', '6', '7', '8', '9', 'a', 'b', 'c', 'd', 'e', 'f'][n as int]
}

/// Lowercase hexadecimal text of `b`: two digits per byte, high nibble first.
pub open spec fn hex_lower(b: Seq<u8>) -> Seq<char>
    decreases b.len(),
{
    if b.len() == 0 {
        Seq::empty()
    } else {
        seq![hex_digit(b[0] / 16), hex_digit(b[0] % 16)] + hex_lower(b.drop_first())
    }
}

/// Relies on hex's `encode`: two lowercase hexadecimal digits per byte, high
/// nibble first.
#[verifier::external_body]
fn encode_hex(bytes: &[u8]) -> (r: String)
    ensures
        r@ == hex_lower(bytes@),
{
    hex::encode(bytes)
}

/// The view of an optional text field.
pub open spec fn opt_text(o: Option<String>) -> Option<Seq<char>> {
    match o {
        Some(s) => Some(s@),
        None => None,
    }
}

/// token metadata
#[derive(Clone, PartialEq, Debug, Default)]
pub struct Metadata {
    /// optional uri for off-chain metadata.  This should be prefixed with `http://`, `https://`, `ipfs://`, or
    /// `ar://`.  Only use this if you are not using `extension`
    pub token_uri: Option<String>,
    /// optional on-chain metadata.  Only use this if you are not using `token_uri`
    pub extension: Option<Extension>,
}

/// metadata extension
/// These fields are the metadata fields used for NFT display.  Urls should be
/// prefixed with `http://`, `https://`, `ipfs://`, or `ar://`
#[derive(Clone, PartialEq, Debug)]
pub struct Extension {
    /// url to the image
    pub image: Option<String>,
    /// raw SVG image data (not recommended). Only use this if you're not including the image parameter
    pub image_data: Option<String>,
    /// url to allow users to view the item on your site
    pub external_url: Option<String>,
    /// item description
    pub description: Option<String>,
    /// dice experience level
    pub xp: u32,
    /// name of the item
    pub name: Option<String>,
    /// item attributes
    pub attributes: Vec<Trait>,
    /// background color represented as a six-character hexadecimal without a pre-pended #
    pub background_color: Option<String>,
    /// url to a multimedia attachment
    pub animation_url: Option<String>,
    /// url to a YouTube video
    pub youtube_url: Option<String>,
    /// media files that allow for basic authentication and decryption keys
    pub media: Option<Vec<MediaFile>>,
    /// a select list of trait_types that are in the private metadata.  This will only ever be used
    /// in public metadata
    pub protected_attributes: Option<Vec<String>>,
}

/// attribute trait
#[derive(Clone, PartialEq, Debug, Default)]
pub struct Trait {
    /// indicates how a trait should be displayed
    pub display_type: Option<String>,
    /// name of the trait
    pub trait_type: Option<String>,
    /// trait value
    pub value: String,
    /// optional max value for numerical traits
    pub max_value: Option<String>,
}

/// media file
#[derive(Clone, PartialEq, Debug, Default)]
pub struct MediaFile {
    /// file type, such as "image", "video", "audio", "text", "font", "application"
    pub file_type: Option<String>,
    /// file extension
    pub extension: Option<String>,
    /// authentication information
    pub authentication: Option<Authentication>,
    /// url to the file.  Urls should be prefixed with `http://`, `https://`, `ipfs://`, or `ar://`
    pub url: String,
}

/// media file authentication
#[derive(Clone, PartialEq, Debug, Default)]
pub struct Authentication {
    /// either a decryption key for encrypted files or a password for basic authentication
    pub key: Option<String>,
    /// username used in basic authentication
    pub user: Option<String>,
}

/// colours: three raw bytes
#[derive(Clone, PartialEq, Debug, Default)]
pub struct Colour(pub Vec<u8>);

/// The value of a trait, its texts as character sequences.
pub struct TraitView {
    pub display_type: Option<Seq<char>>,
    pub trait_type: Option<Seq<char>>,
    pub value: Seq<char>,
    pub max_value: Option<Seq<char>>,
}

/// The value of a media file authentication.
pub struct AuthenticationView {
    pub key: Option<Seq<char>>,
    pub user: Option<Seq<char>>,
}

/// The value of a media file.
pub struct MediaFileView {
    pub file_type: Option<Seq<char>>,
    pub extension: Option<Seq<char>>,
    pub authentication: Option<AuthenticationView>,
    pub url: Seq<char>,
}

/// The value of an extension, field for field.
pub struct ExtensionView {
    pub image: Option<Seq<char>>,
    pub image_data: Option<Seq<char>>,
    pub external_url: Option<Seq<char>>,
    pub description: Option<Seq<char>>,
    pub xp: u32,
    pub name: Option<Seq<char>>,
    pub attributes: Seq<TraitView>,
    pub background_color: Option<Seq<char>>,
    pub animation_url: Option<Seq<char>>,
    pub youtube_url: Option<Seq<char>>,
    pub media: Option<Seq<MediaFileView>>,
    pub protected_attributes: Option<Seq<Seq<char>>>,
}

/// The value of token metadata.
pub struct MetadataView {
    pub token_uri: Option<Seq<char>>,
    pub extension: Option<ExtensionView>,
}

impl View for Trait {
    type V = TraitView;

    open spec fn view(&self) -> TraitView {
        TraitView {
            display_type: opt_text(self.display_type),
            trait_type: opt_text(self.trait_type),
            value: self.value@,
            max_value: opt_text(self.max_value),
        }
    }
}

impl View for Authentication {
    type V = AuthenticationView;

    open spec fn view(&self) -> AuthenticationView {
        AuthenticationView { key: opt_text(self.key), user: opt_text(self.user) }
    }
}

impl View for MediaFile {
    type V = MediaFileView;

    open spec fn view(&self) -> MediaFileView {
        MediaFileView {
            file_type: opt_text(self.file_type),
            extension: opt_text(self.extension),
            authentication: match self.authentication {
                Some(a) => Some(a@),
                None => None,
            },
            url: self.url@,
        }
    }
}

impl View for Extension {
    type V = ExtensionView;

    open spec fn view(&self) -> ExtensionView {
        ExtensionView {
            image: opt_text(self.image),
            image_data: opt_text(self.image_data),
            external_url: opt_text(self.external_url),
            description: opt_text(self.description),
            xp: self.xp,
            name: opt_text(self.name),
            attributes: self.attributes@.map_values(|t: Trait| t@),
            background_color: opt_text(self.background_color),
            animation_url: opt_text(self.animation_url),
            youtube_url: opt_text(self.youtube_url),
            media: match self.media {
                Some(m) => Some(m@.map_values(|f: MediaFile| f@)),
                None => None,
            },
            protected_attributes: match self.protected_attributes {
                Some(p) => Some(p@.map_values(|s: String| s@)),
                None => None,
            },
        }
    }
}

impl View for Metadata {
    type V = MetadataView;

    open spec fn view(&self) -> MetadataView {
        MetadataView {
            token_uri: opt_text(self.token_uri),
            extension: match self.extension {
                Some(e) => Some(e@),
                None => None,
            },
        }
    }
}

impl View for Colour {
    type V = Seq<u8>;

    open spec fn view(&self) -> Seq<u8> {
        self.0@
    }
}

/// The extension that a dice set starts with: the fixed description and name,
/// experience 0, and nothing else.
pub open spec fn default_extension() -> ExtensionView {
    ExtensionView {
        image: None,
        image_data: None,
        external_url: None,
        description: Some(DICE_DESCRIPTION@),
        xp: 0,
        name: Some(DICE_NAME@),
        attributes: Seq::empty(),
        background_color: None,
        animation_url: None,
        youtube_url: None,
        media: None,
        protected_attributes: None,
    }
}

/// The key of the generator that colours the dice set of `seed`.
pub open spec fn dice_key(seed: Seq<u8>) -> Seq<u8> {
    sha256_of(seq![DICE_TAG] + seed)
}

/// The colour of draw `i` of the generator keyed by `key`, on stream 0: the
/// first three bytes of the draw.
pub open spec fn colour_of_draw(key: Seq<u8>, i: int) -> Seq<u8> {
    chacha20_block(key, 0, 8 * i).subrange(0, 3)
}

/// A lowercase hexadecimal digit.
pub open spec fn is_lower_hex_digit(c: char) -> bool {
    ('0' <= c && c <= '9') || ('a' <= c && c <= 'f')
}

/// Six lowercase hexadecimal digits, with no prefix: the text of a colour.
pub open spec fn is_colour_text(s: Seq<char>) -> bool {
    s.len() == 6 && forall|k: int| 0 <= k < 6 ==> is_lower_hex_digit(#[trigger] s[k])
}

/// Each nibble has a lowercase hexadecimal digit.
pub proof fn lemma_hex_digit(n: u8)
    requires
        n < 16,
    ensures
        is_lower_hex_digit(hex_digit(n)),
{
    let digits = seq!['0', '1', '2', '3', '4', '5', '6', '7', '8', '9', 'a', 'b', 'c', 'd', 'e', 'f'];
    assert(forall|k: int| 0 <= k < 16 ==> is_lower_hex_digit(#[trigger] digits[k]));
}

/// The hexadecimal text of `b` has two lowercase digits per byte.
pub proof fn lemma_hex_lower_shape(b: Seq<u8>)
    ensures
        hex_lower(b).len() == 2 * b.len(),
        forall|k: int| 0 <= k < hex_lower(b).len() ==> is_lower_hex_digit(#[trigger] hex_lower(b)[k]),
    decreases b.len(),
{
    if b.len() > 0 {
        lemma_hex_lower_shape(b.drop_first());
        lemma_hex_digit(b[0] / 16);
        lemma_hex_digit(b[0] % 16);
        let head = seq![hex_digit(b[0] / 16), hex_digit(b[0] % 16)];
        let tail = hex_lower(b.drop_first());
        assert forall|k: int| 0 <= k < hex_lower(b).len() implies is_lower_hex_digit(
            #[trigger] hex_lower(b)[k],
        ) by {
            if k >= 2 {
                assert(hex_lower(b)[k] == tail[k - 2]);
            } else {
                assert(hex_lower(b)[k] == head[k]);
            }
        }
    }
}

/// The unlabelled trait whose value is the colour of draw `i`.
pub open spec fn dice_trait(key: Seq<u8>, i: int) -> TraitView {
    TraitView {
        display_type: None,
        trait_type: None,
        value: hex_lower(colour_of_draw(key, i)),
        max_value: None,
    }
}

/// The extension of a dice set coloured from `seed`: three traits from the
/// first three draws, the background from the fourth, the rest as by default.
pub open spec fn dice_extension(seed: Seq<u8>) -> ExtensionView {
    let key = dice_key(seed);
    ExtensionView {
        attributes: seq![dice_trait(key, 0), dice_trait(key, 1), dice_trait(key, 2)],
        background_color: Some(hex_lower(colour_of_draw(key, 3))),
        ..default_extension()
    }
}

impl Colour {
    /// Takes the first three bytes of the next draw of `p`.
    pub fn new(p: &mut Prng) -> (c: Colour)
        ensures
            c@ == old(p).next_draw().subrange(0, 3),
            c@.len() == 3,
            final(p).key() == old(p).key(),
            final(p).stream() == old(p).stream(),
            final(p).word_pos() == (old(p).word_pos() + 8) % (STREAM_WORDS as int),
    {
        let bytes = p.rand_bytes();
        let mut rand_colour: Vec<u8> = Vec::new();
        let mut i: usize = 0;
        while i < 3
            invariant
                i <= 3,
                rand_colour@ == bytes@.subrange(0, i as int),
            decreases 3 - i,
        {
            rand_colour.push(bytes[i]);
            i = i + 1;
        }
        Colour(rand_colour)
    }
}

impl Trait {
    /// An unlabelled trait whose value is the hexadecimal text of a new colour
    /// drawn from `p`.
    pub fn new_dice_colour(p: &mut Prng) -> (t: Trait)
        ensures
            t@ == (TraitView {
                display_type: None,
                trait_type: None,
                value: hex_lower(old(p).next_draw().subrange(0, 3)),
                max_value: None,
            }),
            is_colour_text(t@.value),
            final(p).key() == old(p).key(),
            final(p).stream() == old(p).stream(),
            final(p).word_pos() == (old(p).word_pos() + 8) % (STREAM_WORDS as int),
    {
        let colour = Colour::new(p);
        let value = encode_hex(colour.0.as_slice());
        proof {
            lemma_hex_lower_shape(colour@);
        }
        Trait { display_type: None, trait_type: None, value, max_value: None }
    }
}

impl Default for Extension {
    fn default() -> (e: Extension)
        ensures
            e@ == default_extension(),
    {
        let e = Extension {
            image: None,
            image_data: None,
            external_url: None,
            description: Some(DICE_DESCRIPTION.to_owned()),
            xp: 0,
            name: Some(DICE_NAME.to_owned()),
            attributes: Vec::new(),
            background_color: None,
            animation_url: None,
            youtube_url: None,
            media: None,
            protected_attributes: None,
        };
        assert(e@.attributes =~= Seq::<TraitView>::empty());
        e
    }
}

impl Extension {
    /// A dice set coloured from `seed`: one generator with the dice tag, three
    /// traits from its first three draws and the background from the fourth.
    pub fn with_colours(seed: &[u8]) -> (e: Extension)
        requires
            seed@.len() < usize::MAX,
        ensures
            e@ == dice_extension(seed@),
            e@.attributes.len() == 3,
            forall|i: int| 0 <= i < 3 ==> is_colour_text(#[trigger] e@.attributes[i].value),
            e@.background_color is Some,
            is_colour_text(e@.background_color->Some_0),
    {
        let ghost key = dice_key(seed@);
        let mut new_dice_traits: Vec<Trait> = Vec::new();
        let tag: [u8; 1] = [DICE_TAG];
        assert(tag@ == seq![DICE_TAG]);
        let mut p = Prng::new(tag.as_slice(), seed);
        let mut i: usize = 0;
        while i < 3
            invariant
                i <= 3,
                p.key() == key,
                p.stream() == 0,
                p.word_pos() == 8 * i,
                new_dice_traits@.len() == i,
                forall|j: int| 0 <= j < i ==> (#[trigger] new_dice_traits@[j])@ == dice_trait(key, j),
                forall|j: int| 0 <= j < i ==> is_colour_text((#[trigger] new_dice_traits@[j])@.value),
            decreases 3 - i,
        {
            new_dice_traits.push(Trait::new_dice_colour(&mut p));
            i = i + 1;
        }
        let ghost traits = new_dice_traits@;
        let background = Colour::new(&mut p);
        proof {
            lemma_hex_lower_shape(background@);
        }
        let e = Extension {
            image: None,
            image_data: None,
            external_url: None,
            description: Some(DICE_DESCRIPTION.to_owned()),
            xp: 0,
            name: Some(DICE_NAME.to_owned()),
            attributes: new_dice_traits,
            background_color: Some(encode_hex(background.0.as_slice())),
            animation_url: None,
            youtube_url: None,
            media: None,
            protected_attributes: None,
        };
        assert(e@.attributes =~= dice_extension(seed@).attributes);
        assert(forall|i: int| 0 <= i < 3 ==> #[trigger] e@.attributes[i] == traits[i]@);
        e
    }
}

/// Colouring is deterministic: any two extensions coloured from the same seed
/// are equal in every field.
pub proof fn lemma_with_colours_deterministic(seed: Seq<u8>, a: ExtensionView, b: ExtensionView)
    requires
        a == dice_extension(seed),
        b == dice_extension(seed),
    ensures
        a == b,
{
}

/// A coloured dice set has exactly three traits and exactly one background
/// colour.
pub proof fn lemma_dice_cardinality(seed: Seq<u8>)
    ensures
        dice_extension(seed).attributes.len() == 3,
        dice_extension(seed).background_color is Some,
{
}

} // verus!
