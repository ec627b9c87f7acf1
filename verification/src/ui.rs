//! The toolbox as a whole: which page is open, and the codec page.

use vstd::prelude::*;
use crate::encoder;
use crate::encoder::{can_encode, Encoder, EncoderView, Encoding};

verus! {

/// The pages of the toolbox.
#[derive(Debug, Clone, Copy, PartialEq, Eq, Structural)]
pub enum Site {
    Home,
    Eml,
    Base64,
    Unicode,
}

/// What happens in the toolbox.
#[derive(Debug, Clone)]
pub enum Message {
    SwitchToEml,
    SwitchToBase64,
    SwitchToUnicode,
    /// Something happened on the codec page.
    Encoder(encoder::Message),
}

/// The toolbox, as plain values.
pub struct UiView {
    pub site: Site,
    pub encoder: EncoderView,
}

/// The state of the toolbox.
#[derive(Debug)]
pub struct UI {
    site: Site,
    encoder: Encoder,
}

impl View for UI {
    type V = UiView;

    closed spec fn view(&self) -> UiView {
        UiView { site: self.site, encoder: self.encoder@ }
    }
}

/// The toolbox as it opens: at home, with empty fields and no codec.
pub open spec fn booted() -> UiView {
    UiView {
        site: Site::Home,
        encoder: EncoderView { encoded: Seq::empty(), decoded: Seq::empty(), encoding: Encoding::Plain },
    }
}

/// The toolbox on another page: the codec page takes the codec of that
/// page and keeps its fields.
pub open spec fn switched(u: UiView, site: Site, encoding: Encoding) -> UiView {
    UiView { site, encoder: EncoderView { encoding, ..u.encoder } }
}

/// The toolbox after a message.
pub open spec fn after(u: UiView, message: Message) -> UiView {
    match message {
        Message::SwitchToEml => switched(u, Site::Eml, Encoding::QuotedPrintable),
        Message::SwitchToBase64 => switched(u, Site::Base64, Encoding::Base64),
        Message::SwitchToUnicode => switched(u, Site::Unicode, Encoding::Unicode),
        Message::Encoder(m) => UiView { encoder: encoder::after(u.encoder, m), ..u },
    }
}

/// Whether the toolbox can take `message` on this machine.
pub open spec fn can_take(u: UiView, message: Message) -> bool {
    message matches Message::Encoder(encoder::Message::Encode) ==> can_encode(
        u.encoder.encoding,
        u.encoder.decoded,
    )
}

impl UI {
    /// The toolbox as it opens.
    pub fn boot() -> (ui: UI)
        ensures
            ui@ == booted(),
    {
        UI { site: Site::Home, encoder: Encoder::new(Encoding::Plain) }
    }

    /// The page that is open.
    pub fn site(&self) -> (site: Site)
        ensures
            site == self@.site,
    {
        self.site
    }

    /// The codec page.
    pub fn encoder(&self) -> (page: &Encoder)
        ensures
            page@ == self@.encoder,
    {
        &self.encoder
    }

    /// Takes a message.
    pub fn update(&mut self, message: Message)
        requires
            can_take(old(self)@, message),
        ensures
            final(self)@ == after(old(self)@, message),
    {
        match message {
            Message::SwitchToEml => {
                self.site = Site::Eml;
                self.encoder.set_encoding(Encoding::QuotedPrintable);
            },
            Message::SwitchToBase64 => {
                self.site = Site::Base64;
                self.encoder.set_encoding(Encoding::Base64);
            },
            Message::SwitchToUnicode => {
                self.site = Site::Unicode;
                self.encoder.set_encoding(Encoding::Unicode);
            },
            Message::Encoder(message) => {
                self.encoder.update(message);
            },
        }
    }
}

} // verus!
