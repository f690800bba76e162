//! The fixed texts of the bar: the idle message, the tip label and the
//! catalog of tips, together with the random choice among the tips.

use rand::seq::IndexedRandom;
use vstd::prelude::*;

verus! {

/// Shown when no notification is pending and no tip is selected.
pub const NO_NOTIFICATIONS_MESSAGE: &'static str = "No new notifications";

/// Put in front of a tip when it is stored for display.
pub const TIP_LABEL: &'static str = "Tip: ";

/// The tips, roughly in the order in which the settings they speak of appear.
pub const NOTIFICATION_TIPS: [&'static str; 26] = [
    r#"If you started having crashes after changing some settings, reset ALVR by re-running "Run setup wizard" from the "Installation" tab and clicking "Reset settings"."#,
    r#"Some settings are hidden by default. Click the "Expand" button next to some settings to expand the submenus."#,
    r#"It's highly advisable to keep audio settings as default in ALVR and modify the default audio device in the taskbar tray."#,
    r#"Increasing "Video"->"Maximum buffering" may reduce stutters at the cost of more latency."#,
    r#"Sometimes switching between h264 and HEVC codecs is necessary on certain GPUs to fix crashing or fallback to software encoding."#,
    r#"If you're using an NVIDIA GPU, it's best to use high-bitrate H264; if you're using an AMD GPU, HEVC might look better."#,
    r#"If you experience "white snow" flickering, set "Presets"->"Resolution" to "Low" and disable "Video"->"Foveated encoding"."#,
    r#"Increasing "Video"->"Color correction"->"Sharpness" may improve the perceived image quality."#,
    r#"If you have problems syncing external controllers or trackers to ALVR tracking space, add one element to "Headset"->"Extra OpenVR properties", then set a custom "Tracking system name string"."#,
    r#"To change the visual appearance of controllers, set "Headset"->"Controllers"->"Emulation mode"."#,
    r#"ALVR supports custom button bindings! If you need help, please ask us on our Discord server."#,
    r#"ALVR supports hand tracking gestures ("Presets"->"Hand tracking interaction"->"ALVR bindings"). Check out wiki how to use them properly: https://github.com/alvr-org/ALVR/wiki/Hand-tracking-controller-bindings."#,
    r#"If hand tracking gestures are annoying, you can disable them in "Headset"->"Controllers"->"Hand tracking interaction". Alternatively, you can enable "Hand tracking interaction"->"Only touch"."#,
    r#"You can fine-tune the controllers' responsiveness with "Headset"->"Controllers"->"Prediction"."#,
    r#"If the visual controller/hand models do not match the physical controller's position, you can tweak the offset in "Headset"->"Controllers"->"Left controller position/rotation offset" (affects both controllers)."#,
    r#"When using external trackers or controllers, you should set both "Headset"->"Position/Rotation recentering mode" to "Disabled"."#,
    r#"You can enable tilt mode. Set "Headset"->"Position recentering mode" to "Local" and "Headset"->"Rotation recentering mode" to "Tilted"."#,
    r#"If you often experience image glitching, you can trade that with stutter frames using "Connection"->"Avoid video glitching"."#,
    r#"You can run custom commands/programs at headset connection/disconnection using "Connection"->"Enable on connect/disconnect script"."#,
    r#"In case you want to report a bug, to get a log file, enable "Extra"->"Logging"->"Log to disk". The log will be inside "session_log.txt"."#,
    r#"For hacking purposes, you can enable "Extra"->"Logging"->"Log tracking", "Log button presses" and "Log haptics". You can get the data using a websocket at ws://localhost:8082/api/events."#,
    r#"In case you want to report a bug and share your log, you should enable "Extra"->"Logging"->"Prefer backtrace"."#,
    r#"You can quickly cycle through tips like this one by toggling "Extra"->"Logging"->"Show notification tip"."#,
    r#"It's handy to enable "Extra"->"SteamVR Launcher"->"Open and close SteamVR automatically"."#,
    r#"If you want to share a video recording for reporting a bug, you can enable "Extra"->"Capture"->"Rolling video files" to limit the file size of the upload."#,
    r#"If your headset does not appear in the device list, it might be in a different subnet. Try "Add device manually" with IP shown from inside device."#,
];

/// The catalog as a sequence of texts.
pub open spec fn tip_catalog() -> Seq<Seq<char>> {
    Seq::new(NOTIFICATION_TIPS@.len(), |i: int| NOTIFICATION_TIPS@[i]@)
}

/// A tip as it is stored for display: the label, then the tip.
pub open spec fn labelled(tip: Seq<char>) -> Seq<char> {
    TIP_LABEL@ + tip
}

/// The catalog offers a choice: it holds more than one tip, and its first two
/// differ from their first letter on.
pub proof fn lemma_catalog_offers_a_choice()
    ensures
        tip_catalog().len() == NOTIFICATION_TIPS@.len(),
        tip_catalog().len() >= 2,
        tip_catalog()[0] != tip_catalog()[1],
{
    reveal_strlit(
        r#"If you started having crashes after changing some settings, reset ALVR by re-running "Run setup wizard" from the "Installation" tab and clicking "Reset settings"."#,
    );
    reveal_strlit(
        r#"Some settings are hidden by default. Click the "Expand" button next to some settings to expand the submenus."#,
    );
    assert(tip_catalog()[0][0] == 'I');
    assert(tip_catalog()[1][0] == 'S');
}

/// The label can be taken off again: two tips that read the same under the
/// label are the same tip.
pub proof fn lemma_label_is_injective(a: Seq<char>, b: Seq<char>)
    requires
        labelled(a) == labelled(b),
    ensures
        a == b,
{
    let n = TIP_LABEL@.len() as int;
    assert(labelled(a).subrange(n, labelled(a).len() as int) == a);
    assert(labelled(b).subrange(n, labelled(b).len() as int) == b);
}

/// Puts the label in front of a tip.
pub fn label_tip(tip: &str) -> (text: String)
    ensures
        text@ == labelled(tip@),
{
    let mut text = TIP_LABEL.to_owned();
    text.append(tip);
    text
}

/// Calls `rand::seq::IndexedRandom::choose` on the catalog with the
/// thread-local generator of `rand::rng`. Believed of it: an empty catalog
/// gives `None`, any other gives one of its entries. Which entry is left
/// open; that the choice is uniform is not stated. `rand::rng` panics where
/// the generator of the thread cannot be seeded by the operating system,
/// which no argument of this function decides.
#[verifier::external_body]
pub(crate) fn choose_tip(catalog: &[&'static str]) -> (picked: Option<&'static str>)
    ensures
        picked is None <==> catalog@.len() == 0,
        picked matches Some(tip) ==> exists|i: int|
            0 <= i < catalog@.len() && tip@ == (#[trigger] catalog@[i])@,
{
    catalog.choose(&mut rand::rng()).copied()
}

} // verus!
